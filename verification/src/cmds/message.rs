//! One frame: its fields, and the bytes that carry them.

use crate::cmds::class::CommandClass;
use crate::cmds::hex::hex_string;
use crate::cmds::hex::to_hex_string;
use crate::cmds::hex::token_value;
use crate::cmds::hex::tokens;
use crate::cmds::hex::lemma_hex_string_reads_back;
use crate::error::ParseError;
use vstd::std_specs::convert::FromSpecImpl;
use vstd::prelude::*;
use vstd::slice::slice_subrange;
use vstd::slice::slice_to_vec;

verus! {

/// Z-Wave message to write and read.
///
/// A message is one frame, either built for sending or read from received
/// bytes. On the wire a frame is laid out as
///
/// `device, data-length, command class, command, value`
///
/// where the length byte counts the class byte, the command byte and the
/// payload.
#[derive(Debug)]
pub struct Message {
    /// The addressed device. Every byte is accepted.
    pub node_id: u8,
    /// The category of the command.
    pub cmd_class: CommandClass,
    /// The command within its class.
    pub cmd: u8,
    /// The payload of the command. It may be empty.
    pub data: Vec<u8>,
    /// The bytes the message was read from, kept as they came; empty for a
    /// message built by hand. Nothing is ever derived from them again.
    pub raw: Vec<u8>,
}

/// What a [`Message`] stands for: its fields, with sequences for the byte
/// vectors.
pub struct MessageView {
    pub node_id: u8,
    pub cmd_class: CommandClass,
    pub cmd: u8,
    pub data: Seq<u8>,
    pub raw: Seq<u8>,
}

impl View for Message {
    type V = MessageView;

    open spec fn view(&self) -> MessageView {
        MessageView {
            node_id: self.node_id,
            cmd_class: self.cmd_class,
            cmd: self.cmd,
            data: self.data@,
            raw: self.raw@,
        }
    }
}

impl Clone for Message {
    /// Copies the message, field by field.
    fn clone(&self) -> (copy: Message)
        ensures
            copy@ == self@,
    {
        Message {
            node_id: self.node_id,
            cmd_class: self.cmd_class,
            cmd: self.cmd,
            data: self.data.clone(),
            raw: self.raw.clone(),
        }
    }
}

impl MessageView {
    /// The length byte of the frame: the payload length plus two, for the
    /// class byte and the command byte, reduced to one byte.
    pub open spec fn length_byte(self) -> u8 {
        ((self.data.len() + 2) % 256) as u8
    }

    /// The bytes of the frame: a header of four bytes, then the payload.
    /// The bytes kept in `raw` play no part.
    pub open spec fn frame(self) -> Seq<u8> {
        seq![self.node_id, self.length_byte(), self.cmd_class.spec_to_byte(), self.cmd] + self.data
    }
}

impl Message {
    /// What reading `bytes` yields, for an input of four bytes or more.
    ///
    /// The device is taken from the second byte. The fourth byte is read
    /// twice: it is resolved to the command class and it is the command. The
    /// third byte is not looked at, and the second is not checked against
    /// the number of bytes that follow.
    pub open spec fn decoded(bytes: Seq<u8>) -> MessageView
        recommends
            bytes.len() >= 4,
    {
        MessageView {
            node_id: bytes[1],
            cmd_class: CommandClass::spec_from_byte(bytes[3]),
            cmd: bytes[3],
            data: bytes.skip(4),
            raw: bytes,
        }
    }

    /// Creates a message to send. Its `raw` bytes are empty.
    pub fn new(node_id: u8, cmd_class: CommandClass, cmd: u8, data: Vec<u8>) -> (message: Message)
        ensures
            message@ == (MessageView {
                node_id,
                cmd_class,
                cmd,
                data: data@,
                raw: Seq::<u8>::empty(),
            }),
    {
        Message { node_id: node_id, cmd_class: cmd_class, cmd: cmd, data: data, raw: Vec::new() }
    }

    /// Creates a message together with the bytes it was read from.
    pub fn new_with_raw(
        node_id: u8,
        cmd_class: CommandClass,
        cmd: u8,
        data: Vec<u8>,
        raw: Vec<u8>,
    ) -> (message: Message)
        ensures
            message@ == (MessageView { node_id, cmd_class, cmd, data: data@, raw: raw@ }),
    {
        Message { node_id: node_id, cmd_class: cmd_class, cmd: cmd, data: data, raw: raw }
    }

    /// Parses a `&[u8]` slice and tries to convert it to a `Message`.
    ///
    /// Every input is taken, and every failure is returned. An empty input
    /// is rejected with `EmptyFrame`, one of one to three bytes with
    /// `FrameTooShort`. An input of four bytes or more is read as
    /// [`Message::decoded`] says, and kept whole in `raw`. The length byte is
    /// not checked: a caller that needs strict frames validates them itself.
    ///
    /// Three bytes are a device, a length and one byte more, yet the class
    /// and the command are read from the fourth byte, so such an input has
    /// nothing to read them from. It is counted as too short. Whether it
    /// deserves an error of its own is an open question for the owner of the
    /// protocol layer.
    pub fn parse(data: &[u8]) -> (parsed: Result<Message, ParseError>)
        ensures
            match parsed {
                Ok(message) => data@.len() >= 4 && message@ == Self::decoded(data@),
                Err(ParseError::EmptyFrame) => data@.len() == 0,
                Err(ParseError::FrameTooShort) => 1 <= data@.len() <= 3,
            },
    {
        if data.len() < 1 {
            return Err(ParseError::EmptyFrame);
        }
        if data.len() < 4 {
            return Err(ParseError::FrameTooShort);
        }
        let raw = slice_to_vec(data);
        let node_id = data[1];
        let cmd_class = CommandClass::from_byte(data[3]);
        let cmd = data[3];
        let msg_data = slice_to_vec(slice_subrange(data, 4, data.len()));
        Ok(Message::new_with_raw(node_id, cmd_class, cmd, msg_data, raw))
    }

    /// Returns the message as `Vec<u8>`: the frame to hand to the transport.
    ///
    /// For a message that was parsed this need not give `raw` back: parsing
    /// drops the third byte of its input and reads the class from the
    /// fourth, while the frame carries the class in its third byte.
    pub fn to_vec(&self) -> (bytes: Vec<u8>)
        ensures
            bytes@ == self@.frame(),
    {
        let mut v: Vec<u8> = Vec::new();
        v.push(self.node_id);
        v.push(((self.data.len() % 256 + 2) % 256) as u8);
        v.push(self.cmd_class.to_byte());
        v.push(self.cmd);
        v.extend_from_slice(self.data.as_slice());
        v
    }

    /// Returns the frame as text for diagnostics: each byte of
    /// [`Message::to_vec`] as a hexadecimal token, each followed by a space.
    pub fn to_hex_string(&self) -> (text: String)
        ensures
            text@ == hex_string(self@.frame()),
    {
        let bytes = self.to_vec();
        to_hex_string(bytes.as_slice())
    }

    /// A frame has four bytes more than its payload, and its header holds
    /// the device, the length byte, the byte of the class and the command.
    pub proof fn lemma_frame_layout(self)
        ensures
            self@.frame().len() == self@.data.len() + 4,
            self@.frame()[0] == self@.node_id,
            self@.frame()[1] == (self@.data.len() + 2) % 256,
            self@.frame()[2] == self@.cmd_class.spec_to_byte(),
            self@.frame()[3] == self@.cmd,
            self@.frame().skip(4) == self@.data,
    {
        assert(self@.frame().skip(4) =~= self@.data);
    }

    /// Serializing is a function of the message: two results of
    /// [`Message::to_vec`] for one message hold the same bytes, and so do the
    /// results for two messages that differ in nothing but `raw`.
    pub proof fn lemma_to_vec_deterministic(self, other: Message, first: Vec<u8>, second: Vec<u8>)
        requires
            self@.node_id == other@.node_id,
            self@.cmd_class == other@.cmd_class,
            self@.cmd == other@.cmd,
            self@.data == other@.data,
            first@ == self@.frame(),
            second@ == other@.frame(),
        ensures
            first@ == second@,
    {
    }

    /// The text of a message holds one token for each byte of its frame, and
    /// each token, read as a hexadecimal number, is the byte at its place.
    pub proof fn lemma_hex_string_reads_back(self)
        ensures
            tokens(hex_string(self@.frame())).len() == self@.frame().len(),
            forall|i: int|
                0 <= i < self@.frame().len() ==> token_value(
                    #[trigger] tokens(hex_string(self@.frame()))[i],
                ) == Some(self@.frame()[i]),
    {
        lemma_hex_string_reads_back(self@.frame());
    }
}

impl From<Message> for Vec<u8> {
    /// Converts the message to its frame.
    fn from(message: Message) -> (bytes: Vec<u8>)
        ensures
            bytes@ == message@.frame(),
    {
        message.to_vec()
    }
}

impl FromSpecImpl<Message> for Vec<u8> {
    open spec fn obeys_from_spec() -> bool {
        false
    }

    open spec fn from_spec(message: Message) -> Vec<u8> {
        arbitrary()
    }
}

impl From<Message> for String {
    /// Converts the message to the hexadecimal text of its frame.
    fn from(message: Message) -> (text: String)
        ensures
            text@ == hex_string(message@.frame()),
    {
        message.to_hex_string()
    }
}

impl FromSpecImpl<Message> for String {
    open spec fn obeys_from_spec() -> bool {
        false
    }

    open spec fn from_spec(message: Message) -> String {
        arbitrary()
    }
}

} // verus!

//! Rendering bytes as hexadecimal text, for diagnostics.
//!
//! A byte is rendered as a token: the prefix `0x`, then its digits in base
//! sixteen, upper case and without padding. A byte sequence is rendered as
//! its tokens in order, each followed by one space.

use vstd::prelude::*;

verus! {

/// The character of the hexadecimal digit `d`.
pub open spec fn hex_digit(d: int) -> char
    recommends
        0 <= d < 16,
{
    if d < 10 {
        ('0' as int + d) as char
    } else {
        ('A' as int + d - 10) as char
    }
}

/// The token of `b`: `0x`, then one digit for a byte below sixteen and two
/// digits for any other.
pub open spec fn hex_token(b: u8) -> Seq<char> {
    if b < 16 {
        seq!['0', 'x', hex_digit(b as int)]
    } else {
        seq!['0', 'x', hex_digit(b as int / 16), hex_digit(b as int % 16)]
    }
}

/// The text of `bytes`: the token of each byte, each followed by a space.
pub open spec fn hex_string(bytes: Seq<u8>) -> Seq<char>
    decreases bytes.len(),
{
    if bytes.len() == 0 {
        Seq::<char>::empty()
    } else {
        hex_string(bytes.drop_last()) + hex_token(bytes.last()) + seq![' ']
    }
}

/// The text of one hexadecimal digit.
fn digit_str(d: u8) -> (text: &'static str)
    requires
        d < 16,
    ensures
        text@ == seq![hex_digit(d as int)],
{
    proof {
        reveal_strlit("0");
        reveal_strlit("1");
        reveal_strlit("2");
        reveal_strlit("3");
        reveal_strlit("4");
        reveal_strlit("5");
        reveal_strlit("6");
        reveal_strlit("7");
        reveal_strlit("8");
        reveal_strlit("9");
        reveal_strlit("A");
        reveal_strlit("B");
        reveal_strlit("C");
        reveal_strlit("D");
        reveal_strlit("E");
        reveal_strlit("F");
    }
    match d {
        0 => "0",
        1 => "1",
        2 => "2",
        3 => "3",
        4 => "4",
        5 => "5",
        6 => "6",
        7 => "7",
        8 => "8",
        9 => "9",
        10 => "A",
        11 => "B",
        12 => "C",
        13 => "D",
        14 => "E",
        _ => "F",
    }
}

/// Appends the token of `b` and a space to `out`.
fn push_token(out: &mut String, b: u8)
    ensures
        final(out)@ == old(out)@ + hex_token(b) + seq![' '],
{
    proof {
        reveal_strlit("0x");
        reveal_strlit(" ");
    }
    out.append("0x");
    if b >= 16 {
        out.append(digit_str(b / 16));
    }
    out.append(digit_str(b % 16));
    out.append(" ");
}

/// Renders `bytes` as text: one token for each byte, each followed by a
/// space.
pub fn to_hex_string(bytes: &[u8]) -> (text: String)
    ensures
        text@ == hex_string(bytes@),
{
    let mut out = String::new();
    let mut i: usize = 0;
    while i < bytes.len()
        invariant
            i <= bytes@.len(),
            out@ == hex_string(bytes@.take(i as int)),
        decreases bytes@.len() - i,
    {
        push_token(&mut out, bytes[i]);
        assert(bytes@.take(i + 1).drop_last() =~= bytes@.take(i as int));
        i += 1;
    }
    assert(bytes@.take(i as int) =~= bytes@);
    out
}

/// The value of the hexadecimal digit `c`, in either case; `None` for any
/// other character.
pub open spec fn digit_value(c: char) -> Option<int> {
    if '0' <= c <= '9' {
        Some(c as int - '0' as int)
    } else if 'A' <= c <= 'F' {
        Some(c as int - 'A' as int + 10)
    } else if 'a' <= c <= 'f' {
        Some(c as int - 'a' as int + 10)
    } else {
        None
    }
}

/// The byte that `token` denotes: `0x`, then one or two hexadecimal digits.
/// `None` for any other text.
pub open spec fn token_value(token: Seq<char>) -> Option<u8> {
    if token.len() == 3 && token[0] == '0' && token[1] == 'x' {
        match digit_value(token[2]) {
            Some(low) => Some(low as u8),
            None => None,
        }
    } else if token.len() == 4 && token[0] == '0' && token[1] == 'x' {
        match (digit_value(token[2]), digit_value(token[3])) {
            (Some(high), Some(low)) => Some((16 * high + low) as u8),
            _ => None,
        }
    } else {
        None
    }
}

/// The index of the first space in `text`, and the length of `text` where it
/// holds none.
pub open spec fn first_space(text: Seq<char>) -> nat
    decreases text.len(),
{
    if text.len() == 0 || text[0] == ' ' {
        0
    } else {
        1 + first_space(text.drop_first())
    }
}

/// The tokens of `text`: the runs of characters that a space ends, in order
/// and without the space. What follows the last space belongs to no token.
pub open spec fn tokens(text: Seq<char>) -> Seq<Seq<char>>
    decreases text.len(),
{
    let end = first_space(text) as int;
    if end >= text.len() {
        Seq::<Seq<char>>::empty()
    } else {
        seq![text.take(end)] + tokens(text.skip(end + 1))
    }
}

/// A token holds no space, and reading it gives the byte back.
pub proof fn lemma_token_value(b: u8)
    ensures
        3 <= hex_token(b).len() <= 4,
        !hex_token(b).contains(' '),
        token_value(hex_token(b)) == Some(b),
{
}

/// Where `head` holds no space, the first space of `head`, a space and
/// `rest` is the one that follows `head`.
pub proof fn lemma_first_space(head: Seq<char>, rest: Seq<char>)
    requires
        !head.contains(' '),
    ensures
        first_space(head + seq![' '] + rest) == head.len(),
    decreases head.len(),
{
    if head.len() > 0 {
        let text = head + seq![' '] + rest;
        let shorter = head.drop_first();
        assert forall|c: char| shorter.contains(c) implies head.contains(c) by {
            let i = choose|i: int| 0 <= i < shorter.len() && shorter[i] == c;
            assert(head[i + 1] == c);
        }
        assert(text.drop_first() =~= shorter + seq![' '] + rest);
        lemma_first_space(shorter, rest);
    }
}

/// The text of a sequence that is not empty starts with the token of its
/// first byte and a space, and goes on with the text of the other bytes.
pub proof fn lemma_hex_string_first(bytes: Seq<u8>)
    requires
        bytes.len() > 0,
    ensures
        hex_string(bytes) == hex_token(bytes.first()) + seq![' '] + hex_string(bytes.drop_first()),
    decreases bytes.len(),
{
    if bytes.len() == 1 {
        assert(bytes.drop_last() =~= Seq::<u8>::empty());
        assert(bytes.drop_first() =~= Seq::<u8>::empty());
        assert(hex_string(bytes) =~= hex_token(bytes.first()) + seq![' '] + hex_string(
            bytes.drop_first(),
        ));
    } else {
        let front = bytes.drop_last();
        lemma_hex_string_first(front);
        assert(front.drop_first() =~= bytes.drop_first().drop_last());
        assert(hex_string(bytes) =~= hex_token(bytes.first()) + seq![' '] + hex_string(
            bytes.drop_first(),
        ));
    }
}

/// Splitting the text of `bytes` at its spaces gives back the tokens of the
/// bytes, one for each byte and in their order.
pub proof fn lemma_tokens_of_hex_string(bytes: Seq<u8>)
    ensures
        tokens(hex_string(bytes)) == bytes.map_values(|b: u8| hex_token(b)),
    decreases bytes.len(),
{
    if bytes.len() > 0 {
        let head = hex_token(bytes.first());
        let rest = hex_string(bytes.drop_first());
        let text = head + seq![' '] + rest;
        lemma_hex_string_first(bytes);
        lemma_token_value(bytes.first());
        lemma_first_space(head, rest);
        lemma_tokens_of_hex_string(bytes.drop_first());
        assert(text.take(head.len() as int) =~= head);
        assert(text.skip(head.len() as int + 1) =~= rest);
    }
}

/// The text of `bytes` holds as many tokens as there are bytes, and each
/// token, read as a hexadecimal number, is the byte at its place.
pub proof fn lemma_hex_string_reads_back(bytes: Seq<u8>)
    ensures
        tokens(hex_string(bytes)).len() == bytes.len(),
        forall|i: int|
            0 <= i < bytes.len() ==> token_value(#[trigger] tokens(hex_string(bytes))[i]) == Some(
                bytes[i],
            ),
{
    lemma_tokens_of_hex_string(bytes);
    assert forall|i: int| 0 <= i < bytes.len() implies token_value(
        #[trigger] tokens(hex_string(bytes))[i],
    ) == Some(bytes[i]) by {
        lemma_token_value(bytes[i]);
    }
}

} // verus!

//! Command classes and the frame that carries them.

pub mod class;
pub mod hex;
pub mod message;
pub mod meter_data;

pub use self::class::CommandClass;
pub use self::message::Message;
pub use self::message::MessageView;
pub use self::meter_data::MeterData;

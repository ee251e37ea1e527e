//! Host-side driver for the RN2903 LoRa/FSK transceiver module.
//!
//! The RN2903 speaks a textual, line-oriented, request/response command
//! protocol over a serial link. This crate implements that protocol engine:
//! byte-exact framing of commands and replies, the timing discipline the
//! module's firmware needs, and decoding of module responses into typed
//! results with a precise error taxonomy.
//!
//! The physical serial transport is kept behind the [`ByteStream`] trait;
//! any duplex byte channel (a real serial port, a test double) can carry
//! the protocol.

pub mod command;
pub mod device;
pub mod error;
pub mod line;
pub mod nvm;
pub mod radix;
pub mod reply;
pub mod stream;
pub mod text;

pub use command::ModulationMode;
pub use device::Rn2903;
pub use error::Error;
pub use nvm::NvmAddress;
pub use stream::ByteStream;
pub use stream::StreamError;
pub use text::bytes_to_string;

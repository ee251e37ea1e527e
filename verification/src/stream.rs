//! The byte stream abstraction: a duplex channel of raw bytes.
//!
//! The protocol engine is written against this trait alone, so any duplex
//! byte channel can carry the protocol: a physical serial port, a virtual
//! COM port, or a test double. The engine assumes nothing about what the
//! channel returns; every guarantee it gives holds for any implementation.

use vstd::prelude::*;

verus! {

/// An I/O failure reported by a byte stream. The protocol engine treats
/// every stream failure as a disconnection, so the error carries nothing.
#[derive(Debug)]
pub struct StreamError;

/// A duplex channel supporting blocking write, flush, and chunked read of
/// raw bytes, plus the fixed settle waits the module's firmware needs.
pub trait ByteStream {
    /// Write some prefix of `buf` to the channel, returning how many bytes
    /// were accepted, as a blocking write does.
    fn write_bytes(&mut self, buf: &[u8]) -> Result<usize, StreamError>;

    /// Block until every byte written so far has left the channel.
    fn flush(&mut self) -> Result<(), StreamError>;

    /// Read one bounded chunk of raw bytes: at most `max` of them, however
    /// many the channel has ready, blocking up to its own read timeout.
    fn read_chunk(&mut self, max: usize) -> Result<Vec<u8>, StreamError>;

    /// Wait the given number of milliseconds before touching the channel
    /// again: the module needs settle time around transactions.
    fn wait_millis(&mut self, ms: u64);
}

} // verus!

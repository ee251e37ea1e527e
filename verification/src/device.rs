//! The device handle and its transaction engine: one outbound command is
//! paired with exactly one inbound reply line, and the typed command
//! methods decode the replies the module sends back.

use vstd::prelude::*;
use crate::command::ModulationMode;
use crate::command::build_modulation_command;
use crate::command::build_nvm_get_command;
use crate::command::build_nvm_set_command;
use crate::command::build_radio_rx_command;
use crate::error::Error;
use crate::line::frame_line;
use crate::line::is_line_terminated;
use crate::line::line_terminated;
use crate::line::line_trimmed;
use crate::line::trim_trailing;
use crate::line::trim_trailing_spec;
use crate::nvm::NvmAddress;
use crate::radix::dec_value;
use crate::radix::hex_payload_bytes;
use crate::radix::hex_value;
use crate::radix::is_hex_payload;
use crate::reply::decode_nvm_reply;
use crate::reply::decode_pause_reply;
use crate::reply::decode_rx_ack;
use crate::reply::decode_rx_data;
use crate::reply::expect_reply;
use crate::reply::is_hex_byte_reply;
use crate::reply::is_pause_reply;
use crate::reply::rx_data_tag;
use crate::reply::rx_err_tag;
use crate::reply::rx_payload;
use crate::reply::verify_version;
use crate::stream::ByteStream;
use crate::text::bytes_to_string;
use crate::text::lossy_utf8;
use crate::text::starts_with_bytes;
use crate::text::str_to_bytes;

verus! {

/// The settle delay after every write: the module needs processing time
/// before a subsequent transaction.
pub const WRITE_SETTLE_MILLIS: u64 = 500;

/// The wait between read chunks while a reply is still incomplete: the
/// hardware fragments replies and needs inter-chunk settle time.
pub const READ_RETRY_MILLIS: u64 = 12;

/// The bounded size of one raw read.
pub const READ_CHUNK_BYTES: usize = 32;

/// How many chunks `read_line` will read while waiting for a terminator
/// before it gives the link up. The protocol defines no upper bound on how
/// long a reply may take, so this cap is set beyond any physically
/// reachable count — at the retry delay it amounts to billions of years —
/// and exists because every verified loop must terminate.
pub const READ_RETRY_LIMIT: u64 = u64::MAX;

/// A reply line as the engine hands it to the decoders: some terminated
/// raw buffer with its trailing control bytes trimmed.
pub open spec fn is_reply_line(line: Seq<u8>) -> bool {
    line_trimmed(line) && exists|raw: Seq<u8>|
        line_terminated(raw) && line == trim_trailing_spec(raw)
}

/// A handle to a serial link connected to an RN2903 module. It exclusively
/// owns the byte stream for its whole lifetime; transactions on it are
/// strictly half-duplex, one command and then one reply.
pub struct Rn2903<S: ByteStream> {
    port: S,
}

impl<S: ByteStream> Rn2903<S> {
    /// Open a new connection to a module over the given byte stream without
    /// performing a version check.
    ///
    /// The results of operations on a handle that does _not_ represent an
    /// actual connection to an RN2903 module are completely unpredictable,
    /// though never memory-unsafe.
    pub fn new_unchecked(port: S) -> Rn2903<S> {
        Rn2903 { port }
    }

    /// Open a new connection to a module over the given byte stream, then
    /// verify the device's identity: if the version reply does not begin
    /// with the identity token, the stream is dropped and no handle is
    /// produced.
    pub fn new(port: S) -> (r: Result<Rn2903<S>, Error>)
        ensures
            r matches Err(e) ==> (e is WrongDevice || e is Disconnected),
    {
        let mut new = Self::new_unchecked(port);
        let version = match new.system_version_bytes() {
            Ok(v) => v,
            Err(e) => { return Err(e) },
        };
        match verify_version(version.as_slice()) {
            Ok(()) => Ok(new),
            Err(e) => Err(e),
        }
    }

    /// Acquire temporary direct access to the captured byte stream.
    ///
    /// Use this access to, for example, reconfigure the connection on the
    /// fly, or toggle line signals for devices this crate is unaware of.
    /// A caller doing so bypasses all framing guarantees and is responsible
    /// for restoring protocol-consistent state before issuing further
    /// commands.
    pub fn port(&mut self) -> (r: &mut S) {
        &mut self.port
    }
}

impl<S: ByteStream> Rn2903<S> {
    /// Write the specified command to the module, adding the line
    /// terminator, writing until every byte is accepted, flushing, and
    /// waiting the settle delay. Any stream failure is `Disconnected`.
    pub fn send_line(&mut self, line: &[u8]) -> (r: Result<(), Error>)
        ensures
            r matches Err(e) ==> e is Disconnected,
    {
        let bytes = frame_line(line);
        let mut cursor: usize = 0;
        while cursor < bytes.len()
            invariant
                cursor <= bytes@.len(),
            decreases bytes@.len() - cursor,
        {
            let remaining = vstd::slice::slice_subrange(bytes.as_slice(), cursor, bytes.len());
            let n = match self.port.write_bytes(remaining) {
                Ok(n) => n,
                Err(_) => { return Err(Error::Disconnected) },
            };
            if n == 0 || n > bytes.len() - cursor {
                // A write that accepts nothing can never confirm the
                // remaining bytes, and one that claims more than it was
                // offered has broken the link contract: both are failures.
                return Err(Error::Disconnected);
            }
            cursor += n;
        }
        match self.port.flush() {
            Ok(()) => {},
            Err(_) => { return Err(Error::Disconnected) },
        }
        self.port.wait_millis(WRITE_SETTLE_MILLIS);
        Ok(())
    }

    /// Read bytes from the stream in bounded chunks until a complete line
    /// has arrived, then return it with its trailing control bytes
    /// trimmed.
    ///
    /// This blocks for however long the device takes to respond: between
    /// chunks it waits the retry delay and polls again, up to the
    /// practically unreachable retry cap, until the terminator appears or
    /// the stream reports a failure, which is `Disconnected`.
    pub fn read_line(&mut self) -> (r: Result<Vec<u8>, Error>)
        ensures
            r matches Ok(line) ==> is_reply_line(line@),
            r matches Err(e) ==> e is Disconnected,
    {
        let mut buf: Vec<u8> = Vec::new();
        let mut tries: u64 = 0;
        loop
            invariant_except_break
                tries <= READ_RETRY_LIMIT,
            ensures
                line_terminated(buf@),
            decreases READ_RETRY_LIMIT - tries,
        {
            if tries == READ_RETRY_LIMIT {
                return Err(Error::Disconnected);
            }
            tries += 1;
            let mut chunk = match self.port.read_chunk(READ_CHUNK_BYTES) {
                Ok(c) => c,
                Err(_) => { return Err(Error::Disconnected) },
            };
            buf.append(&mut chunk);
            if is_line_terminated(&buf) {
                break;
            }
            self.port.wait_millis(READ_RETRY_MILLIS);
        }
        let ghost raw = buf@;
        let line = trim_trailing(buf);
        proof {
            assert(line_terminated(raw) && line@ == trim_trailing_spec(raw));
        }
        Ok(line)
    }

    /// Write the specified command to the module and return the single
    /// line it sends in response: the unit of all higher-level operations.
    pub fn transact(&mut self, command: &[u8]) -> (r: Result<Vec<u8>, Error>)
        ensures
            r matches Ok(line) ==> is_reply_line(line@),
            r matches Err(e) ==> e is Disconnected,
    {
        self.send_line(command)?;
        self.read_line()
    }

    /// Perform a transaction whose reply must byte-match the one acceptable
    /// acknowledgement; any other reply is a `BadResponse` carrying both
    /// texts.
    fn transact_expecting(&mut self, command: &[u8], expectation: &[u8]) -> (r: Result<
        (),
        Error,
    >)
        ensures
            r matches Err(e) ==> e is Disconnected || (e matches Error::BadResponse(exp, _act)
                && exp@ == lossy_utf8(expectation@)),
    {
        let line = self.transact(command)?;
        expect_reply(line.as_slice(), expectation)
    }
}

impl<S: ByteStream> Rn2903<S> {
    /// Query the module for its firmware version information.
    ///
    /// Returns a `String` like `RN2903 1.0.3 Aug  8 2017 15:11:09`.
    pub fn system_version(&mut self) -> (r: Result<String, Error>)
        ensures
            r matches Ok(s) ==> exists|line: Seq<u8>|
                is_reply_line(line) && s@ == lossy_utf8(line),
            r matches Err(e) ==> e is Disconnected,
    {
        let bytes = self.system_version_bytes()?;
        let s = bytes_to_string(bytes.as_slice());
        proof {
            assert(is_reply_line(bytes@) && s@ == lossy_utf8(bytes@));
        }
        Ok(s)
    }

    /// Query the module for its firmware version information.
    ///
    /// As `system_version`, but returns the reply bytes.
    pub fn system_version_bytes(&mut self) -> (r: Result<Vec<u8>, Error>)
        ensures
            r matches Ok(line) ==> is_reply_line(line@),
            r matches Err(e) ==> e is Disconnected,
    {
        proof {
            reveal_strlit("sys get ver");
            assert(vstd::string::is_ascii("sys get ver"));
        }
        let cmd = str_to_bytes("sys get ver");
        self.transact(cmd.as_slice())
    }

    /// Reset the CPU on the connected module. State in memory is lost and
    /// the MAC starts up upon reboot, automatically loading default LoRaWAN
    /// settings.
    ///
    /// Returns the post-reset version text, like `system_version_bytes`,
    /// since the module re-announces its identity after reboot.
    pub fn system_module_reset(&mut self) -> (r: Result<Vec<u8>, Error>)
        ensures
            r matches Ok(line) ==> is_reply_line(line@),
            r matches Err(e) ==> e is Disconnected,
    {
        proof {
            reveal_strlit("sys reset");
            assert(vstd::string::is_ascii("sys reset"));
        }
        let cmd = str_to_bytes("sys reset");
        self.transact(cmd.as_slice())
    }

    /// Perform a factory reset on the connected module. All EEPROM values
    /// are restored to factory defaults; all LoRaWAN settings set by the
    /// user are lost.
    ///
    /// Returns the post-reset version text, like `system_version_bytes`.
    pub fn system_factory_reset(&mut self) -> (r: Result<Vec<u8>, Error>)
        ensures
            r matches Ok(line) ==> is_reply_line(line@),
            r matches Err(e) ==> e is Disconnected,
    {
        proof {
            reveal_strlit("sys factoryRESET");
            assert(vstd::string::is_ascii("sys factoryRESET"));
        }
        let cmd = str_to_bytes("sys factoryRESET");
        self.transact(cmd.as_slice())
    }

    /// Set the value of the on-MCU nonvolatile memory at the given address
    /// to the given value. The range of the address was already checked at
    /// its construction; the module acknowledges with `ok`.
    pub fn system_set_nvm(&mut self, address: NvmAddress, value: u8) -> (r: Result<(), Error>)
        ensures
            r matches Err(e) ==> e is Disconnected || e is BadResponse,
    {
        proof {
            reveal_strlit("ok");
            assert(vstd::string::is_ascii("ok"));
        }
        let cmd = build_nvm_set_command(address, value);
        let ok = str_to_bytes("ok");
        self.transact_expecting(cmd.as_slice(), ok.as_slice())
    }

    /// Get the value of the on-MCU nonvolatile memory at the given address:
    /// the module replies with the byte in hexadecimal.
    pub fn system_get_nvm(&mut self, address: NvmAddress) -> (r: Result<u8, Error>)
        ensures
            r matches Ok(v) ==> exists|line: Seq<u8>|
                is_reply_line(line) && is_hex_byte_reply(line) && v as nat == hex_value(
                    line,
                ),
            r matches Err(e) ==> e is Disconnected || e is BadResponse,
    {
        let cmd = build_nvm_get_command(address);
        let line = self.transact(cmd.as_slice())?;
        decode_nvm_reply(line.as_slice())
    }

    /// Set the modulation mode used by the radio for transmission and
    /// reception; the module acknowledges with `ok`.
    pub fn radio_set_modulation_mode(&mut self, mode: ModulationMode) -> (r: Result<(), Error>)
        ensures
            r matches Err(e) ==> e is Disconnected || e is BadResponse,
    {
        proof {
            reveal_strlit("ok");
            assert(vstd::string::is_ascii("ok"));
        }
        let cmd = build_modulation_command(mode);
        let ok = str_to_bytes("ok");
        self.transact_expecting(cmd.as_slice(), ok.as_slice())
    }

    /// Open the receiver for the given timeout, counted in symbols in LoRa
    /// mode and in milliseconds in FSK mode — the caller must track the
    /// mode. Returns the received packet's bytes, or `None` if the window
    /// closed without a valid packet.
    ///
    /// The module replies in two phases: an immediate acknowledgement
    /// (`ok` to proceed, `busy` for `TransceiverBusy`), then a second,
    /// asynchronous line once the window closes, carrying either the
    /// no-packet tag or a hexadecimal payload.
    pub fn radio_rx(&mut self, timeout: u16) -> (r: Result<Option<Vec<u8>>, Error>)
        ensures
            r matches Ok(p) ==> (p matches Some(v) ==> exists|line: Seq<u8>|
                is_reply_line(line) && starts_with_bytes(line, rx_data_tag())
                    && is_hex_payload(rx_payload(line)) && v@ == hex_payload_bytes(
                    rx_payload(line),
                )),
            r matches Ok(p) ==> (p is None ==> exists|line: Seq<u8>|
                is_reply_line(line) && starts_with_bytes(line, rx_err_tag())),
            r matches Err(e) ==> e is TransceiverBusy || e is BadResponse
                || e is Disconnected,
    {
        let cmd = build_radio_rx_command(timeout);
        let ack = self.transact(cmd.as_slice())?;
        match decode_rx_ack(ack.as_slice()) {
            Ok(()) => {},
            Err(e) => { return Err(e) },
        }
        let line = self.read_line()?;
        decode_rx_data(line.as_slice())
    }

    /// Pause the LoRaWAN MAC functionality on the device, returning the
    /// number of milliseconds — always positive — for which the MAC can
    /// remain paused without affecting LoRaWAN functionality.
    ///
    /// This command can fail with `CannotPause`, meaning the device is
    /// operating in a mode (like LoRaWAN Class C) in which pausing the MAC
    /// for any period of time would result in degraded service.
    pub fn mac_pause(&mut self) -> (r: Result<u32, Error>)
        ensures
            r matches Ok(ms) ==> ms > 0 && exists|line: Seq<u8>|
                is_reply_line(line) && is_pause_reply(line) && ms as nat == dec_value(
                    line,
                ),
            r matches Err(e) ==> e is CannotPause || e is BadResponse || e is Disconnected,
    {
        proof {
            reveal_strlit("mac pause");
            assert(vstd::string::is_ascii("mac pause"));
        }
        let cmd = str_to_bytes("mac pause");
        let line = self.transact(cmd.as_slice())?;
        decode_pause_reply(line.as_slice())
    }

    /// Resume LoRaWAN MAC functionality on the device after being paused;
    /// the module acknowledges with `ok`.
    pub fn mac_resume(&mut self) -> (r: Result<(), Error>)
        ensures
            r matches Err(e) ==> e is Disconnected || e is BadResponse,
    {
        proof {
            reveal_strlit("mac resume");
            reveal_strlit("ok");
            assert(vstd::string::is_ascii("mac resume"));
            assert(vstd::string::is_ascii("ok"));
        }
        let cmd = str_to_bytes("mac resume");
        let ok = str_to_bytes("ok");
        self.transact_expecting(cmd.as_slice(), ok.as_slice())
    }
}

} // verus!

//! Tests of the typed command façade: exact command bytes on the wire,
//! reply decoding, the error taxonomy, and identity verification.

use rn2903::ByteStream;
use rn2903::Error;
use rn2903::ModulationMode;
use rn2903::NvmAddress;
use rn2903::Rn2903;
use rn2903::StreamError;

/// A scripted byte stream: each read hands out the next chunk, and the
/// script's end is an I/O failure. Writes are recorded.
struct ScriptStream {
    chunks: Vec<Vec<u8>>,
    next: usize,
    written: Vec<u8>,
    reads: usize,
}

fn script(chunks: &[&[u8]]) -> ScriptStream {
    ScriptStream {
        chunks: chunks.iter().map(|c| c.to_vec()).collect(),
        next: 0,
        written: Vec::new(),
        reads: 0,
    }
}

impl ByteStream for ScriptStream {
    fn write_bytes(&mut self, buf: &[u8]) -> Result<usize, StreamError> {
        self.written.extend_from_slice(buf);
        Ok(buf.len())
    }

    fn flush(&mut self) -> Result<(), StreamError> {
        Ok(())
    }

    fn read_chunk(&mut self, _max: usize) -> Result<Vec<u8>, StreamError> {
        self.reads += 1;
        if self.next < self.chunks.len() {
            let chunk = self.chunks[self.next].clone();
            self.next += 1;
            Ok(chunk)
        } else {
            Err(StreamError)
        }
    }

    fn wait_millis(&mut self, _ms: u64) {}
}

// NVM addresses.

#[test]
fn nvm_address_construction_in_range() {
    assert_eq!(NvmAddress::new(0x300).inner(), 0x300);
    assert_eq!(NvmAddress::new(0x3FF).inner(), 0x3FF);
    assert_eq!(NvmAddress::new(0x380).inner(), 0x380);
}

#[test]
fn nvm_address_checked_construction_covers_the_range() {
    assert!(NvmAddress::try_new(0x2FF).is_none());
    assert!(NvmAddress::try_new(0).is_none());
    assert!(NvmAddress::try_new(0x400).is_none());
    assert!(NvmAddress::try_new(0xFFFF).is_none());
    assert_eq!(NvmAddress::try_new(0x300).unwrap().inner(), 0x300);
    assert_eq!(NvmAddress::try_new(0x3FF).unwrap().inner(), 0x3FF);
}

// System commands.

#[test]
fn system_version_bytes_on_the_wire() {
    let mut txvr = Rn2903::new_unchecked(script(&[b"RN2903 1.0.3 Aug  8 2017 15:11:09\r\n"]));
    let version = txvr.system_version_bytes().unwrap();
    assert_eq!(version, b"RN2903 1.0.3 Aug  8 2017 15:11:09");
    assert_eq!(txvr.port().written, b"sys get ver\r\n");
}

#[test]
fn system_version_decodes_text() {
    let mut txvr = Rn2903::new_unchecked(script(&[b"RN2903 1.0.3\r\n"]));
    assert_eq!(txvr.system_version().unwrap(), "RN2903 1.0.3");
}

#[test]
fn system_module_reset_on_the_wire() {
    let mut txvr = Rn2903::new_unchecked(script(&[b"RN2903 1.0.3\r\n"]));
    assert_eq!(txvr.system_module_reset().unwrap(), b"RN2903 1.0.3");
    assert_eq!(txvr.port().written, b"sys reset\r\n");
}

#[test]
fn system_factory_reset_on_the_wire() {
    let mut txvr = Rn2903::new_unchecked(script(&[b"RN2903 1.0.3\r\n"]));
    assert_eq!(txvr.system_factory_reset().unwrap(), b"RN2903 1.0.3");
    assert_eq!(txvr.port().written, b"sys factoryRESET\r\n");
}

#[test]
fn set_nvm_embeds_lowercase_hex() {
    let mut txvr = Rn2903::new_unchecked(script(&[b"ok\r\n"]));
    txvr.system_set_nvm(NvmAddress::new(0x3AB), 0x2A).unwrap();
    assert_eq!(txvr.port().written, b"sys set nvm 3ab 2a\r\n");
}

#[test]
fn set_nvm_single_digit_value_has_no_padding() {
    let mut txvr = Rn2903::new_unchecked(script(&[b"ok\r\n"]));
    txvr.system_set_nvm(NvmAddress::new(0x300), 0).unwrap();
    assert_eq!(txvr.port().written, b"sys set nvm 300 0\r\n");
}

#[test]
fn set_nvm_rejects_unexpected_reply() {
    let mut txvr = Rn2903::new_unchecked(script(&[b"invalid_param\r\n"]));
    match txvr.system_set_nvm(NvmAddress::new(0x300), 1) {
        Err(Error::BadResponse(expected, actual)) => {
            assert_eq!(expected, "ok");
            assert_eq!(actual, "invalid_param");
        }
        other => panic!("expected BadResponse, got {:?}", other),
    }
}

#[test]
fn get_nvm_decodes_hex_byte() {
    let mut txvr = Rn2903::new_unchecked(script(&[b"ff\r\n"]));
    assert_eq!(txvr.system_get_nvm(NvmAddress::new(0x300)).unwrap(), 0xFF);
    assert_eq!(txvr.port().written, b"sys get nvm 300\r\n");
}

#[test]
fn get_nvm_accepts_uppercase_hex() {
    let mut txvr = Rn2903::new_unchecked(script(&[b"A5\r\n"]));
    assert_eq!(txvr.system_get_nvm(NvmAddress::new(0x3FF)).unwrap(), 0xA5);
}

#[test]
fn get_nvm_rejects_non_hex_reply() {
    let mut txvr = Rn2903::new_unchecked(script(&[b"zz\r\n"]));
    match txvr.system_get_nvm(NvmAddress::new(0x300)) {
        Err(Error::BadResponse(expected, actual)) => {
            assert_eq!(expected, "<integer>");
            assert_eq!(actual, "zz");
        }
        other => panic!("expected BadResponse, got {:?}", other),
    }
}

#[test]
fn get_nvm_rejects_overwide_hex_reply() {
    let mut txvr = Rn2903::new_unchecked(script(&[b"100\r\n"]));
    assert!(matches!(
        txvr.system_get_nvm(NvmAddress::new(0x300)),
        Err(Error::BadResponse(_, _))
    ));
}

// Radio commands.

#[test]
fn modulation_mode_commands_on_the_wire() {
    let mut txvr = Rn2903::new_unchecked(script(&[b"ok\r\n"]));
    txvr.radio_set_modulation_mode(ModulationMode::Fsk).unwrap();
    assert_eq!(txvr.port().written, b"radio set mod fsk\r\n");

    let mut txvr = Rn2903::new_unchecked(script(&[b"ok\r\n"]));
    txvr.radio_set_modulation_mode(ModulationMode::LoRa).unwrap();
    assert_eq!(txvr.port().written, b"radio set mod lora\r\n");
}

#[test]
fn radio_rx_busy_fails_without_a_second_read() {
    let mut txvr = Rn2903::new_unchecked(script(&[b"busy\r\n"]));
    assert!(matches!(txvr.radio_rx(100), Err(Error::TransceiverBusy)));
    assert_eq!(txvr.port().reads, 1);
    assert_eq!(txvr.port().written, b"radio rx 100\r\n");
}

#[test]
fn radio_rx_window_timeout_is_an_empty_success() {
    let mut txvr = Rn2903::new_unchecked(script(&[b"ok\r\n", b"radio_err\r\n"]));
    assert_eq!(txvr.radio_rx(65535).unwrap(), None);
    assert_eq!(txvr.port().written, b"radio rx 65535\r\n");
}

#[test]
fn radio_rx_decodes_hex_payload() {
    let mut txvr = Rn2903::new_unchecked(script(&[b"ok\r\n", b"radio_rx 41424344\r\n"]));
    assert_eq!(txvr.radio_rx(65535).unwrap(), Some(vec![0x41, 0x42, 0x43, 0x44]));
}

#[test]
fn radio_rx_accepts_mixed_case_payload() {
    let mut txvr = Rn2903::new_unchecked(script(&[b"ok\r\n", b"radio_rx 4a4B\r\n"]));
    assert_eq!(txvr.radio_rx(1).unwrap(), Some(vec![0x4A, 0x4B]));
}

#[test]
fn radio_rx_empty_payload_is_an_empty_packet() {
    let mut txvr = Rn2903::new_unchecked(script(&[b"ok\r\n", b"radio_rx \r\n"]));
    assert_eq!(txvr.radio_rx(1).unwrap(), Some(vec![]));
}

#[test]
fn radio_rx_rejects_unexpected_first_line() {
    let mut txvr = Rn2903::new_unchecked(script(&[b"nope\r\n"]));
    match txvr.radio_rx(1) {
        Err(Error::BadResponse(expected, actual)) => {
            assert_eq!(expected, "ok | busy");
            assert_eq!(actual, "nope");
        }
        other => panic!("expected BadResponse, got {:?}", other),
    }
}

#[test]
fn radio_rx_rejects_odd_length_payload() {
    let mut txvr = Rn2903::new_unchecked(script(&[b"ok\r\n", b"radio_rx 414\r\n"]));
    match txvr.radio_rx(1) {
        Err(Error::BadResponse(expected, actual)) => {
            assert_eq!(expected, "radio_rx <bytes>");
            assert_eq!(actual, "radio_rx 414");
        }
        other => panic!("expected BadResponse, got {:?}", other),
    }
}

#[test]
fn radio_rx_rejects_non_hex_payload() {
    let mut txvr = Rn2903::new_unchecked(script(&[b"ok\r\n", b"radio_rx 41xy\r\n"]));
    assert!(matches!(txvr.radio_rx(1), Err(Error::BadResponse(_, _))));
}

#[test]
fn radio_rx_rejects_unexpected_second_line() {
    let mut txvr = Rn2903::new_unchecked(script(&[b"ok\r\n", b"what\r\n"]));
    match txvr.radio_rx(1) {
        Err(Error::BadResponse(expected, actual)) => {
            assert_eq!(expected, "radio_err | radio_rx <bytes>");
            assert_eq!(actual, "what");
        }
        other => panic!("expected BadResponse, got {:?}", other),
    }
}

// MAC commands.

#[test]
fn mac_pause_zero_reply_cannot_pause() {
    let mut txvr = Rn2903::new_unchecked(script(&[b"0\r\n"]));
    assert!(matches!(txvr.mac_pause(), Err(Error::CannotPause)));
    assert_eq!(txvr.port().written, b"mac pause\r\n");
}

#[test]
fn mac_pause_positive_reply_succeeds() {
    let mut txvr = Rn2903::new_unchecked(script(&[b"1000\r\n"]));
    assert_eq!(txvr.mac_pause().unwrap(), 1000);
}

#[test]
fn mac_pause_non_numeric_reply_is_bad_response() {
    let mut txvr = Rn2903::new_unchecked(script(&[b"abc\r\n"]));
    match txvr.mac_pause() {
        Err(Error::BadResponse(expected, actual)) => {
            assert_eq!(expected, "<integer>");
            assert_eq!(actual, "abc");
        }
        other => panic!("expected BadResponse, got {:?}", other),
    }
}

#[test]
fn mac_pause_overflowing_reply_is_bad_response() {
    let mut txvr = Rn2903::new_unchecked(script(&[b"99999999999\r\n"]));
    assert!(matches!(txvr.mac_pause(), Err(Error::BadResponse(_, _))));
}

#[test]
fn mac_resume_on_the_wire() {
    let mut txvr = Rn2903::new_unchecked(script(&[b"ok\r\n"]));
    txvr.mac_resume().unwrap();
    assert_eq!(txvr.port().written, b"mac resume\r\n");
}

// Identity verification at construction.

#[test]
fn new_accepts_a_conforming_version_reply() {
    let mut txvr = Rn2903::new(script(&[b"RN2903 1.0.3 Aug  8 2017 15:11:09\r\n"])).unwrap();
    assert_eq!(txvr.port().written, b"sys get ver\r\n");
}

#[test]
fn new_rejects_a_foreign_version_reply() {
    match Rn2903::new(script(&[b"RN2483 1.0.1\r\n"])) {
        Err(Error::WrongDevice(version)) => assert_eq!(version, "RN2483 1.0.1"),
        other => panic!("expected WrongDevice, got {:?}", other.map(|_| ())),
    }
}

#[test]
fn new_rejects_a_short_version_reply() {
    match Rn2903::new(script(&[b"RN\r\n"])) {
        Err(Error::WrongDevice(version)) => assert_eq!(version, "RN"),
        other => panic!("expected WrongDevice, got {:?}", other.map(|_| ())),
    }
}

#[test]
fn new_surfaces_stream_failure_as_disconnected() {
    assert!(matches!(Rn2903::new(script(&[])), Err(Error::Disconnected)));
}

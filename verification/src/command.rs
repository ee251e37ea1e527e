//! The protocol's command vocabulary: each command is a literal ASCII
//! string with parameters substituted as lowercase hexadecimal or decimal.

use vstd::prelude::*;
use crate::nvm::NvmAddress;
use crate::radix::dec_numeral;
use crate::radix::format_dec_u16;
use crate::radix::format_hex_u16;
use crate::radix::hex_numeral;
use crate::text::ascii_bytes;
use crate::text::str_to_bytes;

verus! {

/// Types of modulation available for transmitting and receiving packets.
#[derive(Debug, PartialEq, Eq, Structural)]
pub enum ModulationMode {
    /// Regular digital frequency shift keying mode.
    Fsk,
    /// LoRa chirp spread spectrum mode.
    LoRa,
}

/// The command that sets one byte of nonvolatile memory: address and value
/// embedded as lowercase hexadecimal.
pub open spec fn nvm_set_command(address: u16, value: u8) -> Seq<u8> {
    ascii_bytes("sys set nvm "@) + hex_numeral(address as nat) + ascii_bytes(" "@)
        + hex_numeral(value as nat)
}

/// Build the command that sets the nonvolatile memory byte at `address` to
/// `value`.
pub fn build_nvm_set_command(address: NvmAddress, value: u8) -> (r: Vec<u8>)
    ensures
        r@ == nvm_set_command(address.spec_inner(), value),
{
    proof {
        reveal_strlit("sys set nvm ");
        reveal_strlit(" ");
        assert(vstd::string::is_ascii("sys set nvm "));
        assert(vstd::string::is_ascii(" "));
    }
    let mut cmd = str_to_bytes("sys set nvm ");
    let mut a = format_hex_u16(address.inner());
    cmd.append(&mut a);
    let mut sp = str_to_bytes(" ");
    cmd.append(&mut sp);
    let mut v = format_hex_u16(value as u16);
    cmd.append(&mut v);
    cmd
}

/// The command that reads one byte of nonvolatile memory: address embedded
/// as lowercase hexadecimal.
pub open spec fn nvm_get_command(address: u16) -> Seq<u8> {
    ascii_bytes("sys get nvm "@) + hex_numeral(address as nat)
}

/// Build the command that reads the nonvolatile memory byte at `address`.
pub fn build_nvm_get_command(address: NvmAddress) -> (r: Vec<u8>)
    ensures
        r@ == nvm_get_command(address.spec_inner()),
{
    proof {
        reveal_strlit("sys get nvm ");
        assert(vstd::string::is_ascii("sys get nvm "));
    }
    let mut cmd = str_to_bytes("sys get nvm ");
    let mut a = format_hex_u16(address.inner());
    cmd.append(&mut a);
    cmd
}

/// The command that opens the receiver: the timeout embedded as decimal.
/// The module reads the number as symbols in LoRa mode and as milliseconds
/// in FSK mode.
pub open spec fn radio_rx_command(timeout: u16) -> Seq<u8> {
    ascii_bytes("radio rx "@) + dec_numeral(timeout as nat)
}

/// Build the command that opens the receiver for `timeout`.
pub fn build_radio_rx_command(timeout: u16) -> (r: Vec<u8>)
    ensures
        r@ == radio_rx_command(timeout),
{
    proof {
        reveal_strlit("radio rx ");
        assert(vstd::string::is_ascii("radio rx "));
    }
    let mut cmd = str_to_bytes("radio rx ");
    let mut t = format_dec_u16(timeout);
    cmd.append(&mut t);
    cmd
}

/// The command that selects a modulation mode, one literal per mode.
pub open spec fn modulation_command(mode: ModulationMode) -> Seq<u8> {
    match mode {
        ModulationMode::Fsk => ascii_bytes("radio set mod fsk"@),
        ModulationMode::LoRa => ascii_bytes("radio set mod lora"@),
    }
}

/// Build the command that selects `mode`.
pub fn build_modulation_command(mode: ModulationMode) -> (r: Vec<u8>)
    ensures
        r@ == modulation_command(mode),
{
    match mode {
        ModulationMode::Fsk => {
            proof {
                reveal_strlit("radio set mod fsk");
                assert(vstd::string::is_ascii("radio set mod fsk"));
            }
            str_to_bytes("radio set mod fsk")
        },
        ModulationMode::LoRa => {
            proof {
                reveal_strlit("radio set mod lora");
                assert(vstd::string::is_ascii("radio set mod lora"));
            }
            str_to_bytes("radio set mod lora")
        },
    }
}

} // verus!

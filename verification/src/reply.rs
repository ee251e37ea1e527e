//! Semantic decoding of module replies. Each decoder takes one finished
//! response line and says, exactly, what result or error every possible
//! line produces; the transaction engine feeds them whatever the stream
//! returned.

use vstd::prelude::*;
use crate::error::Error;
use crate::radix::dec_value;
use crate::radix::hex_payload_bytes;
use crate::radix::hex_value;
use crate::radix::is_dec_numeral;
use crate::radix::is_hex_numeral;
use crate::radix::is_hex_payload;
use crate::radix::parse_dec_u32;
use crate::radix::parse_hex_u8;
use crate::text::ascii_bytes;
use crate::text::bytes_eq;
use crate::text::bytes_starts_with;
use crate::text::bytes_to_string;
use crate::text::lossy_utf8;
use crate::text::starts_with_bytes;
use crate::text::str_to_bytes;

verus! {

/// Check a reply against the single acceptable acknowledgement for a
/// command: a byte mismatch is a `BadResponse` carrying both texts.
pub fn expect_reply(line: &[u8], expectation: &[u8]) -> (r: Result<(), Error>)
    ensures
        line@ == expectation@ ==> r is Ok,
        line@ != expectation@ ==> (r matches Err(e) && e matches Error::BadResponse(exp, act)
            && exp@ == lossy_utf8(expectation@) && act@ == lossy_utf8(line@)),
{
    if bytes_eq(line, expectation) {
        Ok(())
    } else {
        Err(Error::BadResponse(bytes_to_string(expectation), bytes_to_string(line)))
    }
}

/// The identity token every version reply of this device family begins
/// with.
pub open spec fn version_token() -> Seq<u8> {
    ascii_bytes("RN2903"@)
}

/// Whether a version reply identifies this device family: its first six
/// bytes are the identity token.
pub open spec fn is_version_reply(line: Seq<u8>) -> bool {
    starts_with_bytes(line, version_token())
}

/// Decide identity verification on a version reply: a reply that does not
/// begin with the identity token is `WrongDevice`, carrying the reply text.
pub fn verify_version(line: &[u8]) -> (r: Result<(), Error>)
    ensures
        r is Ok <==> is_version_reply(line@),
        r matches Err(e) ==> (e matches Error::WrongDevice(v) && v@ == lossy_utf8(line@)),
{
    proof {
        reveal_strlit("RN2903");
        assert(vstd::string::is_ascii("RN2903"));
    }
    let token = str_to_bytes("RN2903");
    if bytes_starts_with(line, token.as_slice()) {
        Ok(())
    } else {
        Err(Error::WrongDevice(bytes_to_string(line)))
    }
}

/// Whether a reply field is a hexadecimal numeral denoting a byte.
pub open spec fn is_hex_byte_reply(line: Seq<u8>) -> bool {
    is_hex_numeral(line) && hex_value(line) <= u8::MAX
}

/// Decode a nonvolatile-memory read reply: a hexadecimal byte, or a
/// `BadResponse` naming the integer shape the protocol promised.
pub fn decode_nvm_reply(line: &[u8]) -> (r: Result<u8, Error>)
    ensures
        is_hex_byte_reply(line@) ==> (r matches Ok(v) && v as nat == hex_value(line@)),
        !is_hex_byte_reply(line@) ==> (r matches Err(e) && e matches Error::BadResponse(
            exp,
            act,
        ) && exp@ == "<integer>"@ && act@ == lossy_utf8(line@)),
{
    match parse_hex_u8(line) {
        Some(v) => Ok(v),
        None => Err(Error::BadResponse("<integer>".to_owned(), bytes_to_string(line))),
    }
}

/// Whether a reply field is a decimal numeral denoting a value that fits
/// the pause duration's width.
pub open spec fn is_pause_reply(line: Seq<u8>) -> bool {
    is_dec_numeral(line) && dec_value(line) <= u32::MAX
}

/// Decode a MAC pause reply: the number of milliseconds the MAC will stay
/// paused. A parsed zero means the pause was refused and is `CannotPause`,
/// not a success with a zero duration; anything non-numeric is a
/// `BadResponse`.
pub fn decode_pause_reply(line: &[u8]) -> (r: Result<u32, Error>)
    ensures
        is_pause_reply(line@) && dec_value(line@) > 0 ==> (r matches Ok(ms) && ms as nat
            == dec_value(line@)),
        is_pause_reply(line@) && dec_value(line@) == 0 ==> (r matches Err(e)
            && e is CannotPause),
        !is_pause_reply(line@) ==> (r matches Err(e) && e matches Error::BadResponse(exp, act)
            && exp@ == "<integer>"@ && act@ == lossy_utf8(line@)),
{
    match parse_dec_u32(line) {
        Some(ms) => {
            if ms == 0 {
                Err(Error::CannotPause)
            } else {
                Ok(ms)
            }
        },
        None => Err(Error::BadResponse("<integer>".to_owned(), bytes_to_string(line))),
    }
}

/// Decode the immediate acknowledgement of a receive command: exactly
/// `ok` proceeds, exactly `busy` is `TransceiverBusy`, and any other first
/// line is a `BadResponse`.
pub fn decode_rx_ack(line: &[u8]) -> (r: Result<(), Error>)
    ensures
        line@ == ascii_bytes("ok"@) ==> r is Ok,
        line@ == ascii_bytes("busy"@) ==> (r matches Err(e) && e is TransceiverBusy),
        line@ != ascii_bytes("ok"@) && line@ != ascii_bytes("busy"@) ==> (r matches Err(e)
            && e matches Error::BadResponse(exp, act) && exp@ == "ok | busy"@ && act@
            == lossy_utf8(line@)),
{
    proof {
        reveal_strlit("ok");
        reveal_strlit("busy");
        assert(vstd::string::is_ascii("ok"));
        assert(vstd::string::is_ascii("busy"));
        assert(ascii_bytes("ok"@).len() != ascii_bytes("busy"@).len());
    }
    let ok = str_to_bytes("ok");
    if bytes_eq(line, ok.as_slice()) {
        return Ok(());
    }
    let busy = str_to_bytes("busy");
    if bytes_eq(line, busy.as_slice()) {
        return Err(Error::TransceiverBusy);
    }
    Err(Error::BadResponse("ok | busy".to_owned(), bytes_to_string(line)))
}

/// The tag of the asynchronous receive reply that reports no packet.
pub open spec fn rx_err_tag() -> Seq<u8> {
    ascii_bytes("radio_err"@)
}

/// The tag of the asynchronous receive reply that carries a packet,
/// trailing space included; the hexadecimal payload follows it.
pub open spec fn rx_data_tag() -> Seq<u8> {
    ascii_bytes("radio_rx "@)
}

/// The payload part of a receive data reply: what follows the data tag.
pub open spec fn rx_payload(line: Seq<u8>) -> Seq<u8> {
    line.skip(rx_data_tag().len() as int)
}

/// Decode the asynchronous second line of a receive: the error tag means
/// no packet arrived (an empty-result success, not a failure), the data
/// tag carries a hexadecimal payload, and anything else — a malformed
/// payload included — is a `BadResponse`.
pub fn decode_rx_data(line: &[u8]) -> (r: Result<Option<Vec<u8>>, Error>)
    ensures
        starts_with_bytes(line@, rx_err_tag()) ==> (r matches Ok(p) && p is None),
        !starts_with_bytes(line@, rx_err_tag()) && starts_with_bytes(line@, rx_data_tag())
            && is_hex_payload(rx_payload(line@)) ==> (r matches Ok(p) && p matches Some(v)
            && v@ == hex_payload_bytes(rx_payload(line@))),
        !starts_with_bytes(line@, rx_err_tag()) && starts_with_bytes(line@, rx_data_tag())
            && !is_hex_payload(rx_payload(line@)) ==> (r matches Err(e)
            && e matches Error::BadResponse(exp, act) && exp@ == "radio_rx <bytes>"@ && act@
            == lossy_utf8(line@)),
        !starts_with_bytes(line@, rx_err_tag()) && !starts_with_bytes(line@, rx_data_tag())
            ==> (r matches Err(e) && e matches Error::BadResponse(exp, act) && exp@
            == "radio_err | radio_rx <bytes>"@ && act@ == lossy_utf8(line@)),
{
    proof {
        reveal_strlit("radio_err");
        reveal_strlit("radio_rx ");
        assert(vstd::string::is_ascii("radio_err"));
        assert(vstd::string::is_ascii("radio_rx "));
    }
    let err_tag = str_to_bytes("radio_err");
    if bytes_starts_with(line, err_tag.as_slice()) {
        return Ok(None);
    }
    let data_tag = str_to_bytes("radio_rx ");
    if bytes_starts_with(line, data_tag.as_slice()) {
        let payload = vstd::slice::slice_subrange(line, data_tag.len(), line.len());
        proof {
            assert(payload@ =~= rx_payload(line@));
        }
        match crate::radix::decode_hex_payload(payload) {
            Some(v) => Ok(Some(v)),
            None => Err(
                Error::BadResponse("radio_rx <bytes>".to_owned(), bytes_to_string(line)),
            ),
        }
    } else {
        Err(
            Error::BadResponse(
                "radio_err | radio_rx <bytes>".to_owned(),
                bytes_to_string(line),
            ),
        )
    }
}

} // verus!

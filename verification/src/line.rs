//! Line discipline: framing outbound commands with the protocol's
//! terminator, recognising the terminator in inbound bytes, and trimming
//! trailing control bytes from a finished reply.

use vstd::prelude::*;

verus! {

/// ASCII carriage return, the first byte of the line terminator.
pub const CR: u8 = 0x0D;

/// ASCII line feed, the second byte of the line terminator.
pub const LF: u8 = 0x0A;

/// ASCII NUL, trimmed from reply tails along with CR and LF.
pub const NUL: u8 = 0x00;

/// A byte sequence carries a complete line when the most recent line feed
/// is immediately preceded by a carriage return.
pub open spec fn line_terminated(s: Seq<u8>) -> bool {
    exists|i: int|
        0 < i < s.len() && #[trigger] s[i] == LF && s[i - 1] == CR && (forall|j: int|
            i < j < s.len() ==> #[trigger] s[j] != LF)
}

/// Whether the accumulated buffer holds a complete, CRLF-terminated line.
///
/// Scans from the end backward: locates the most recent LF, then checks
/// that the byte immediately before it is CR.
pub fn is_line_terminated(buf: &Vec<u8>) -> (r: bool)
    ensures
        r == line_terminated(buf@),
{
    let mut i: usize = buf.len();
    while i > 0
        invariant
            i <= buf@.len(),
            forall|j: int| i <= j < buf@.len() ==> buf@[j] != LF,
        decreases i,
    {
        i -= 1;
        if buf[i] == LF {
            if i > 0 && buf[i - 1] == CR {
                proof {
                    assert(line_terminated(buf@));
                }
                return true;
            }
            proof {
                assert(forall|k: int|
                    0 < k < buf@.len() && buf@[k] == LF && (forall|j: int|
                        k < j < buf@.len() ==> buf@[j] != LF) ==> k == i);
            }
            return false;
        }
    }
    proof {
        assert(forall|j: int| 0 <= j < buf@.len() ==> buf@[j] != LF);
    }
    false
}

/// Whether a byte belongs to the trailing trim set: NUL, CR or LF.
pub open spec fn is_trim_byte(b: u8) -> bool {
    b == NUL || b == CR || b == LF
}

/// The longest prefix of `s` that does not end in a trim byte.
pub open spec fn trim_trailing_spec(s: Seq<u8>) -> Seq<u8>
    decreases s.len(),
{
    if s.len() > 0 && is_trim_byte(s.last()) {
        trim_trailing_spec(s.drop_last())
    } else {
        s
    }
}

/// A sequence is fully trimmed when it is empty or does not end in a trim
/// byte.
pub open spec fn line_trimmed(s: Seq<u8>) -> bool {
    s.len() == 0 || !is_trim_byte(s.last())
}

/// Remove trailing NUL, CR and LF bytes from the end of a reply buffer,
/// repeatedly, until none remain.
///
/// Fixed-size chunked reads can leave zero padding or an extra terminator
/// at the tail of a reply; this is the explicit post-processing step that
/// strips all of it, and it is safe on an empty buffer.
pub fn trim_trailing(line: Vec<u8>) -> (r: Vec<u8>)
    ensures
        r@ == trim_trailing_spec(line@),
        line_trimmed(r@),
{
    let mut v = line;
    while v.len() > 0 && (v[v.len() - 1] == NUL || v[v.len() - 1] == CR || v[v.len() - 1]
        == LF)
        invariant
            trim_trailing_spec(v@) == trim_trailing_spec(line@),
        decreases v@.len(),
    {
        v.pop();
    }
    v
}

/// The framing of one outbound command: the command followed by CR LF.
pub open spec fn framed(command: Seq<u8>) -> Seq<u8> {
    command + seq![CR, LF]
}

/// Append the two-byte line terminator to a command.
pub fn frame_line(command: &[u8]) -> (r: Vec<u8>)
    ensures
        r@ == framed(command@),
{
    let mut v = vstd::slice::slice_to_vec(command);
    v.push(CR);
    v.push(LF);
    proof {
        assert(v@ =~= framed(command@));
    }
    v
}

} // verus!

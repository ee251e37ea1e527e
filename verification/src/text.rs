//! Byte-level text utilities: ASCII views of command literals, byte
//! comparisons, and the lossy text decoding used for error payloads.

use vstd::prelude::*;
use vstd::slice::slice_to_vec;
use vstd::string::is_ascii_spec_bytes;

verus! {

/// The byte sequence of an ASCII character sequence, one byte per character.
pub open spec fn ascii_bytes(s: Seq<char>) -> Seq<u8> {
    Seq::new(s.len(), |i: int| s[i] as u8)
}

/// What `String::from_utf8_lossy` decodes a byte sequence to.
pub uninterp spec fn lossy_utf8(bytes: Seq<u8>) -> Seq<char>;

/// Turn the raw bytes into a `String` for display.
///
/// Relies on `String::from_utf8_lossy`: the result depends on the bytes
/// alone (valid UTF-8 is kept verbatim, invalid sequences are replaced).
#[verifier::external_body]
pub fn bytes_to_string(bytes: &[u8]) -> (r: String)
    ensures
        r@ == lossy_utf8(bytes@),
{
    String::from_utf8_lossy(bytes).into_owned()
}

/// The bytes of an ASCII string literal, as a vector.
pub(crate) fn str_to_bytes(s: &str) -> (r: Vec<u8>)
    requires
        vstd::string::is_ascii(s),
    ensures
        r@ == ascii_bytes(s@),
{
    let b = s.as_bytes();
    proof {
        is_ascii_spec_bytes(s);
        assert(b@ =~= ascii_bytes(s@));
    }
    slice_to_vec(b)
}

/// Byte-for-byte equality of two byte slices.
pub fn bytes_eq(a: &[u8], b: &[u8]) -> (r: bool)
    ensures
        r <==> a@ == b@,
{
    if a.len() != b.len() {
        proof {
            assert(a@.len() != b@.len());
        }
        return false;
    }
    let mut i: usize = 0;
    while i < a.len()
        invariant
            i <= a@.len(),
            a@.len() == b@.len(),
            forall|j: int| 0 <= j < i ==> a@[j] == b@[j],
        decreases a@.len() - i,
    {
        if *vstd::slice::slice_index_get(a, i) != *vstd::slice::slice_index_get(b, i) {
            return false;
        }
        i += 1;
    }
    proof {
        assert(a@ =~= b@);
    }
    true
}

/// Whether `s` begins with `p`, byte for byte.
pub open spec fn starts_with_bytes(s: Seq<u8>, p: Seq<u8>) -> bool {
    s.len() >= p.len() && s.subrange(0, p.len() as int) == p
}

/// Whether `a` begins with `prefix`, byte for byte.
pub fn bytes_starts_with(a: &[u8], prefix: &[u8]) -> (r: bool)
    ensures
        r <==> starts_with_bytes(a@, prefix@),
{
    if a.len() < prefix.len() {
        return false;
    }
    let head = vstd::slice::slice_subrange(a, 0, prefix.len());
    bytes_eq(head, prefix)
}

} // verus!

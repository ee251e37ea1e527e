//! Decimal and hexadecimal numerals as they appear on the protocol wire:
//! formatting of command parameters and parsing of reply fields.

use vstd::prelude::*;

verus! {

/// Whether a byte is an ASCII decimal digit.
pub open spec fn is_dec_digit(b: u8) -> bool {
    0x30 <= b <= 0x39
}

/// The numeric value of an ASCII decimal digit.
pub open spec fn dec_digit_value(b: u8) -> nat {
    (b - 0x30) as nat
}

/// The ASCII byte of a decimal digit value below ten.
pub open spec fn dec_digit_byte(d: nat) -> u8 {
    (0x30 + d) as u8
}

/// Whether a byte is an ASCII hexadecimal digit, of either case.
pub open spec fn is_hex_digit(b: u8) -> bool {
    0x30 <= b <= 0x39 || 0x61 <= b <= 0x66 || 0x41 <= b <= 0x46
}

/// The numeric value of an ASCII hexadecimal digit.
pub open spec fn hex_digit_value(b: u8) -> nat {
    if 0x30 <= b <= 0x39 {
        (b - 0x30) as nat
    } else if 0x61 <= b <= 0x66 {
        (b - 0x61 + 10) as nat
    } else {
        (b - 0x41 + 10) as nat
    }
}

/// The ASCII byte of a hexadecimal digit value below sixteen, lowercase.
pub open spec fn hex_digit_byte(d: nat) -> u8 {
    if d < 10 {
        (0x30 + d) as u8
    } else {
        (0x61 + (d - 10)) as u8
    }
}

/// Whether every byte of `s` is a decimal digit.
pub open spec fn all_dec_digits(s: Seq<u8>) -> bool {
    forall|i: int| 0 <= i < s.len() ==> is_dec_digit(#[trigger] s[i])
}

/// Whether every byte of `s` is a hexadecimal digit.
pub open spec fn all_hex_digits(s: Seq<u8>) -> bool {
    forall|i: int| 0 <= i < s.len() ==> is_hex_digit(#[trigger] s[i])
}

/// The number a sequence of decimal digits denotes.
pub open spec fn dec_value(s: Seq<u8>) -> nat
    decreases s.len(),
{
    if s.len() == 0 {
        0
    } else {
        dec_value(s.drop_last()) * 10 + dec_digit_value(s.last())
    }
}

/// The number a sequence of hexadecimal digits denotes.
pub open spec fn hex_value(s: Seq<u8>) -> nat
    decreases s.len(),
{
    if s.len() == 0 {
        0
    } else {
        hex_value(s.drop_last()) * 16 + hex_digit_value(s.last())
    }
}

/// A nonempty, all-digit sequence denotes a decimal integer; this is when
/// the protocol's decimal reply fields are well-formed, value bound aside.
pub open spec fn is_dec_numeral(s: Seq<u8>) -> bool {
    s.len() > 0 && all_dec_digits(s)
}

/// A nonempty, all-hex-digit sequence denotes a hexadecimal integer.
pub open spec fn is_hex_numeral(s: Seq<u8>) -> bool {
    s.len() > 0 && all_hex_digits(s)
}

/// The canonical decimal numeral of `n`: no sign, no leading zeroes.
pub open spec fn dec_numeral(n: nat) -> Seq<u8>
    decreases n,
{
    if n < 10 {
        seq![dec_digit_byte(n)]
    } else {
        dec_numeral(n / 10).push(dec_digit_byte(n % 10))
    }
}

/// The canonical lowercase hexadecimal numeral of `n`: no sign, no prefix,
/// no leading zeroes.
pub open spec fn hex_numeral(n: nat) -> Seq<u8>
    decreases n,
{
    if n < 16 {
        seq![hex_digit_byte(n)]
    } else {
        hex_numeral(n / 16).push(hex_digit_byte(n % 16))
    }
}

/// Format a number as its canonical decimal numeral.
pub fn format_dec_u16(v: u16) -> (r: Vec<u8>)
    ensures
        r@ == dec_numeral(v as nat),
    decreases v,
{
    if v < 10 {
        let mut r: Vec<u8> = Vec::new();
        r.push(0x30 + (v as u8));
        proof {
            assert(r@ =~= dec_numeral(v as nat));
        }
        r
    } else {
        let mut r = format_dec_u16(v / 10);
        r.push(0x30 + ((v % 10) as u8));
        r
    }
}

/// Format a number as its canonical lowercase hexadecimal numeral.
pub fn format_hex_u16(v: u16) -> (r: Vec<u8>)
    ensures
        r@ == hex_numeral(v as nat),
    decreases v,
{
    if v < 16 {
        let d = v as u8;
        let mut r: Vec<u8> = Vec::new();
        if d < 10 {
            r.push(0x30 + d);
        } else {
            r.push(0x61 + (d - 10));
        }
        proof {
            assert(r@ =~= hex_numeral(v as nat));
        }
        r
    } else {
        let mut r = format_hex_u16(v / 16);
        let d = (v % 16) as u8;
        if d < 10 {
            r.push(0x30 + d);
        } else {
            r.push(0x61 + (d - 10));
        }
        r
    }
}

/// Appending digits never decreases the value a numeral denotes.
proof fn lemma_dec_value_prefix_bound(s: Seq<u8>, i: int)
    requires
        0 <= i <= s.len(),
    ensures
        dec_value(s.subrange(0, i)) <= dec_value(s),
    decreases s.len() - i,
{
    if i < s.len() {
        lemma_dec_value_prefix_bound(s, i + 1);
        let p = s.subrange(0, i + 1);
        assert(p.drop_last() =~= s.subrange(0, i));
        assert(dec_value(s.subrange(0, i)) <= dec_value(p));
    } else {
        assert(s.subrange(0, i) =~= s);
    }
}

/// As `lemma_dec_value_prefix_bound`, for hexadecimal numerals.
proof fn lemma_hex_value_prefix_bound(s: Seq<u8>, i: int)
    requires
        0 <= i <= s.len(),
    ensures
        hex_value(s.subrange(0, i)) <= hex_value(s),
    decreases s.len() - i,
{
    if i < s.len() {
        lemma_hex_value_prefix_bound(s, i + 1);
        let p = s.subrange(0, i + 1);
        assert(p.drop_last() =~= s.subrange(0, i));
        assert(hex_value(s.subrange(0, i)) <= hex_value(p));
    } else {
        assert(s.subrange(0, i) =~= s);
    }
}

/// Parse an unsigned decimal integer, as the protocol's decimal reply
/// fields use them: the whole slice must be nonempty, all digits, and
/// denote a value that fits.
pub fn parse_dec_u32(s: &[u8]) -> (r: Option<u32>)
    ensures
        match r {
            Some(v) => is_dec_numeral(s@) && v as nat == dec_value(s@) && dec_value(s@)
                <= u32::MAX,
            None => !(is_dec_numeral(s@) && dec_value(s@) <= u32::MAX),
        },
{
    if s.len() == 0 {
        return None;
    }
    let mut acc: u32 = 0;
    let mut i: usize = 0;
    while i < s.len()
        invariant
            0 < s@.len(),
            i <= s@.len(),
            all_dec_digits(s@.subrange(0, i as int)),
            acc as nat == dec_value(s@.subrange(0, i as int)),
        decreases s@.len() - i,
    {
        let b = *vstd::slice::slice_index_get(s, i);
        if b < 0x30 || b > 0x39 {
            return None;
        }
        let d = (b - 0x30) as u32;
        if acc > (u32::MAX - d) / 10 {
            proof {
                assert(s@.subrange(0, i as int).push(s@[i as int]) =~= s@.subrange(
                    0,
                    i as int + 1,
                ));
                assert(dec_value(s@.subrange(0, i as int + 1)) > u32::MAX) by {
                    assert(s@.subrange(0, i as int + 1).drop_last() =~= s@.subrange(
                        0,
                        i as int,
                    ));
                };
                lemma_dec_value_prefix_bound(s@, i as int + 1);
            }
            return None;
        }
        proof {
            assert(s@.subrange(0, i as int + 1).drop_last() =~= s@.subrange(0, i as int));
        }
        acc = acc * 10 + d;
        i += 1;
    }
    proof {
        assert(s@.subrange(0, s@.len() as int) =~= s@);
    }
    Some(acc)
}

/// Parse an unsigned hexadecimal byte, as the protocol's hexadecimal reply
/// field uses it: the whole slice must be nonempty, all hexadecimal digits
/// of either case, and denote a value below 256.
pub fn parse_hex_u8(s: &[u8]) -> (r: Option<u8>)
    ensures
        match r {
            Some(v) => is_hex_numeral(s@) && v as nat == hex_value(s@) && hex_value(s@)
                <= u8::MAX,
            None => !(is_hex_numeral(s@) && hex_value(s@) <= u8::MAX),
        },
{
    if s.len() == 0 {
        return None;
    }
    let mut acc: u16 = 0;
    let mut i: usize = 0;
    while i < s.len()
        invariant
            0 < s@.len(),
            i <= s@.len(),
            all_hex_digits(s@.subrange(0, i as int)),
            acc as nat == hex_value(s@.subrange(0, i as int)),
            acc <= u8::MAX,
        decreases s@.len() - i,
    {
        let b = *vstd::slice::slice_index_get(s, i);
        let d: u16 = if 0x30 <= b && b <= 0x39 {
            (b - 0x30) as u16
        } else if 0x61 <= b && b <= 0x66 {
            (b - 0x61 + 10) as u16
        } else if 0x41 <= b && b <= 0x46 {
            (b - 0x41 + 10) as u16
        } else {
            return None;
        };
        proof {
            assert(s@.subrange(0, i as int + 1).drop_last() =~= s@.subrange(0, i as int));
        }
        if acc * 16 + d > 0xFF {
            proof {
                lemma_hex_value_prefix_bound(s@, i as int + 1);
            }
            return None;
        }
        acc = acc * 16 + d;
        i += 1;
    }
    proof {
        assert(s@.subrange(0, s@.len() as int) =~= s@);
    }
    Some(acc as u8)
}

/// Whether a payload is a well-formed hexadecimal byte string: an even
/// number of hexadecimal digits.
pub open spec fn is_hex_payload(s: Seq<u8>) -> bool {
    s.len() % 2 == 0 && all_hex_digits(s)
}

/// The bytes a well-formed hexadecimal payload encodes, two digits each.
pub open spec fn hex_payload_bytes(s: Seq<u8>) -> Seq<u8> {
    Seq::new(s.len() / 2, |i: int| (hex_digit_value(s[2 * i]) * 16 + hex_digit_value(
        s[2 * i + 1],
    )) as u8)
}

/// Decode a hexadecimal payload into raw bytes: pairs of hexadecimal
/// digits, most significant first. An odd-length or non-hexadecimal
/// payload is refused.
pub fn decode_hex_payload(s: &[u8]) -> (r: Option<Vec<u8>>)
    ensures
        match r {
            Some(v) => is_hex_payload(s@) && v@ == hex_payload_bytes(s@),
            None => !is_hex_payload(s@),
        },
{
    if s.len() % 2 != 0 {
        return None;
    }
    let mut out: Vec<u8> = Vec::new();
    let mut i: usize = 0;
    while i < s.len()
        invariant
            i <= s@.len(),
            i % 2 == 0,
            s@.len() % 2 == 0,
            all_hex_digits(s@.subrange(0, i as int)),
            out@.len() == i / 2,
            forall|k: int| 0 <= k < out@.len() ==> out@[k] == (hex_digit_value(s@[2 * k])
                * 16 + hex_digit_value(s@[2 * k + 1])) as u8,
        decreases s@.len() - i,
    {
        let hi = *vstd::slice::slice_index_get(s, i);
        let lo = *vstd::slice::slice_index_get(s, i + 1);
        let hv: u8 = if 0x30 <= hi && hi <= 0x39 {
            hi - 0x30
        } else if 0x61 <= hi && hi <= 0x66 {
            hi - 0x61 + 10
        } else if 0x41 <= hi && hi <= 0x46 {
            hi - 0x41 + 10
        } else {
            return None;
        };
        let lv: u8 = if 0x30 <= lo && lo <= 0x39 {
            lo - 0x30
        } else if 0x61 <= lo && lo <= 0x66 {
            lo - 0x61 + 10
        } else if 0x41 <= lo && lo <= 0x46 {
            lo - 0x41 + 10
        } else {
            return None;
        };
        out.push(hv * 16 + lv);
        i += 2;
    }
    proof {
        assert(s@.subrange(0, s@.len() as int) =~= s@);
        assert(out@ =~= hex_payload_bytes(s@));
    }
    Some(out)
}

} // verus!

use vstd::prelude::*;

use crate::handshake::spec_be64;

verus! {

/// True for the bytes that are base-16 digits, either case.
pub open spec fn spec_is_hex_digit(b: u8) -> bool {
    (48 <= b <= 57) || (97 <= b <= 102) || (65 <= b <= 70)
}

/// The value of a base-16 digit byte.
pub open spec fn spec_hex_val(b: u8) -> u8 {
    if 48 <= b <= 57 {
        (b - 48) as u8
    } else if 65 <= b <= 70 {
        (b - 55) as u8
    } else {
        (b - 87) as u8
    }
}

/// True when `s` is a well-formed base-16 rendering: even length, digits
/// only.
pub open spec fn spec_is_base16(s: Seq<u8>) -> bool {
    s.len() % 2 == 0 && (forall|i: int| 0 <= i < s.len() ==> spec_is_hex_digit(#[trigger] s[i]))
}

/// The bytes a well-formed base-16 rendering decodes to.
pub open spec fn spec_from_base16(s: Seq<u8>) -> Seq<u8> {
    Seq::new(
        (s.len() / 2) as nat,
        |i: int| ((16 * spec_hex_val(s[2 * i]) + spec_hex_val(s[2 * i + 1])) as u8),
    )
}

fn hex_val(b: u8) -> (r: Option<u8>)
    ensures
        r is Some <==> spec_is_hex_digit(b),
        spec_is_hex_digit(b) ==> r == Some(spec_hex_val(b)),
{
    if 48 <= b && b <= 57 {
        Some(b - 48)
    } else if 65 <= b && b <= 70 {
        Some(b - 55)
    } else if 97 <= b && b <= 102 {
        Some(b - 87)
    } else {
        None
    }
}

/// Decodes a base-16 byte string: the decoded bytes exactly when `s` is an
/// even-length string of digits, nothing otherwise.
pub fn from_base16(s: &[u8]) -> (r: Option<Vec<u8>>)
    ensures
        r is Some <==> spec_is_base16(s@),
        spec_is_base16(s@) ==> (r matches Some(v) && v@ == spec_from_base16(s@)),
{
    if s.len() % 2 != 0 {
        return None;
    }
    let mut out: Vec<u8> = Vec::new();
    let mut i: usize = 0;
    while i < s.len()
        invariant
            i % 2 == 0,
            i <= s@.len(),
            s@.len() % 2 == 0,
            out@.len() == i / 2,
            forall|t: int| 0 <= t < i ==> spec_is_hex_digit(#[trigger] s@[t]),
            forall|t: int| 0 <= t < i / 2 ==> out@[t] == spec_from_base16(s@)[t],
        decreases s@.len() - i,
    {
        let hi = match hex_val(s[i]) {
            Some(v) => v,
            None => {
                return None;
            },
        };
        let lo = match hex_val(s[i + 1]) {
            Some(v) => v,
            None => {
                return None;
            },
        };
        out.push(16 * hi + lo);
        proof {
            assert(out@[i as int / 2] == spec_from_base16(s@)[i as int / 2]);
        }
        i = i + 2;
    }
    proof {
        assert(out@ =~= spec_from_base16(s@));
    }
    Some(out)
}

/// The 64-bit value whose big-endian rendering is `b`.
pub open spec fn spec_u64_from_be(b: Seq<u8>) -> u64 {
    (b[0] * 0x100_0000_0000_0000 + b[1] * 0x1_0000_0000_0000 + b[2] * 0x100_0000_0000 + b[3]
        * 0x1_0000_0000 + b[4] * 0x100_0000 + b[5] * 0x1_0000 + b[6] * 0x100 + b[7]) as u64
}

/// Reads a 64-bit value from its 8 big-endian bytes.
pub fn u64_from_be(b: &[u8]) -> (r: u64)
    requires
        b@.len() == 8,
    ensures
        r == spec_u64_from_be(b@),
{
    let mut acc: u64 = 0;
    acc = acc * 256 + (b[0] as u64);
    acc = acc * 256 + (b[1] as u64);
    acc = acc * 256 + (b[2] as u64);
    acc = acc * 256 + (b[3] as u64);
    acc = acc * 256 + (b[4] as u64);
    acc = acc * 256 + (b[5] as u64);
    acc = acc * 256 + (b[6] as u64);
    acc = acc * 256 + (b[7] as u64);
    acc
}

/// Reading back the big-endian rendering of a value gives the value.
pub proof fn lemma_be64_round_trip(x: u64)
    ensures
        spec_u64_from_be(spec_be64(x)) == x,
{
    let b0 = ((x >> 56) & 0xff) as u8;
    let b1 = ((x >> 48) & 0xff) as u8;
    let b2 = ((x >> 40) & 0xff) as u8;
    let b3 = ((x >> 32) & 0xff) as u8;
    let b4 = ((x >> 24) & 0xff) as u8;
    let b5 = ((x >> 16) & 0xff) as u8;
    let b6 = ((x >> 8) & 0xff) as u8;
    let b7 = (x & 0xff) as u8;
    assert(b0 == ((x >> 56) & 0xff) as u8 && b1 == ((x >> 48) & 0xff) as u8 && b2 == ((x >> 40)
        & 0xff) as u8 && b3 == ((x >> 32) & 0xff) as u8 && b4 == ((x >> 24) & 0xff) as u8 && b5
        == ((x >> 16) & 0xff) as u8 && b6 == ((x >> 8) & 0xff) as u8 && b7 == (x & 0xff) as u8
        ==> b0 * 0x100_0000_0000_0000 + b1 * 0x1_0000_0000_0000 + b2 * 0x100_0000_0000 + b3
        * 0x1_0000_0000 + b4 * 0x100_0000 + b5 * 0x1_0000 + b6 * 0x100 + b7 == x) by (bit_vector);
    assert(spec_be64(x)[0] == b0 && spec_be64(x)[1] == b1 && spec_be64(x)[2] == b2 && spec_be64(
        x,
    )[3] == b3 && spec_be64(x)[4] == b4 && spec_be64(x)[5] == b5 && spec_be64(x)[6] == b6
        && spec_be64(x)[7] == b7);
}

} // verus!

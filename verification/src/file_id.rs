use vstd::prelude::*;

use crate::error::Error;

verus! {

/// Relies on std's `String::push`: appends one character to the string.
pub assume_specification[ String::push ](s: &mut String, ch: char)
    ensures
        final(s)@ == old(s)@.push(ch),
;

/// The length of a raw file identifier.
pub const RAW_LEN: usize = 20;

/// A 20-byte file identifier.
#[derive(Copy, Clone, Debug, PartialEq, Eq, PartialOrd, Ord, Hash)]
pub struct FileId(pub [u8; 20]);

/// The lowercase hexadecimal digit for a value below 16.
pub open spec fn spec_hex_digit(v: u8) -> char {
    if v == 0 {
        '0'
    } else if v == 1 {
        '1'
    } else if v == 2 {
        '2'
    } else if v == 3 {
        '3'
    } else if v == 4 {
        '4'
    } else if v == 5 {
        '5'
    } else if v == 6 {
        '6'
    } else if v == 7 {
        '7'
    } else if v == 8 {
        '8'
    } else if v == 9 {
        '9'
    } else if v == 10 {
        'a'
    } else if v == 11 {
        'b'
    } else if v == 12 {
        'c'
    } else if v == 13 {
        'd'
    } else if v == 14 {
        'e'
    } else {
        'f'
    }
}

/// The lowercase base-16 rendering of a byte string: two digits per byte,
/// high digit first.
pub open spec fn spec_base16(bytes: Seq<u8>) -> Seq<char> {
    Seq::new(
        bytes.len() * 2,
        |i: int|
            if i % 2 == 0 {
                spec_hex_digit(bytes[i / 2] / 16)
            } else {
                spec_hex_digit(bytes[i / 2] % 16)
            },
    )
}

fn hex_digit(v: u8) -> (c: char)
    requires
        v < 16,
    ensures
        c == spec_hex_digit(v),
{
    match v {
        0 => '0',
        1 => '1',
        2 => '2',
        3 => '3',
        4 => '4',
        5 => '5',
        6 => '6',
        7 => '7',
        8 => '8',
        9 => '9',
        10 => 'a',
        11 => 'b',
        12 => 'c',
        13 => 'd',
        14 => 'e',
        _ => 'f',
    }
}

impl FileId {
    /// Builds a file identifier from a raw byte string. A source of up to 20
    /// bytes fills the identifier from the front, zero-padded — some servers
    /// return 16 bytes instead of 20 — and a longer source yields the
    /// all-zero identifier.
    pub fn from_raw(src: &[u8]) -> (r: FileId)
        ensures
            src@.len() <= 20 ==> r.0@ == src@ + Seq::new((20 - src@.len()) as nat, |i: int| 0u8),
            src@.len() > 20 ==> r.0@ == Seq::new(20, |i: int| 0u8),
    {
        let mut dst: [u8; 20] = [0u8; 20];
        proof {
            assert(dst@ =~= Seq::new(20, |i: int| 0u8));
        }
        let len = src.len();
        if len <= 20 {
            let mut i: usize = 0;
            while i < len
                invariant
                    i <= len,
                    len == src@.len() <= 20,
                    dst@.len() == 20,
                    forall|t: int| 0 <= t < i ==> dst@[t] == src@[t],
                    forall|t: int| i <= t < 20 ==> dst@[t] == 0u8,
                decreases len - i,
            {
                dst[i] = src[i];
                i = i + 1;
            }
            proof {
                assert(dst@ =~= src@ + Seq::new((20 - src@.len()) as nat, |i: int| 0u8));
            }
        }
        FileId(dst)
    }

    /// Renders the identifier as 40 lowercase base-16 digits.
    pub fn to_base16(&self) -> (r: Result<String, Error>)
        ensures
            r matches Ok(s) && s@ == spec_base16(self.0@),
    {
        let mut out = String::new();
        let mut i: usize = 0;
        while i < 20
            invariant
                i <= 20,
                self.0@.len() == 20,
                out@.len() == 2 * i,
                forall|t: int| 0 <= t < 2 * i ==> out@[t] == spec_base16(self.0@)[t],
            decreases 20 - i,
        {
            let b = self.0[i];
            out.push(hex_digit(b / 16));
            out.push(hex_digit(b % 16));
            proof {
                assert(out@[2 * i as int] == spec_base16(self.0@)[2 * i as int]);
                assert(out@[2 * i as int + 1] == spec_base16(self.0@)[2 * i as int + 1]);
            }
            i = i + 1;
        }
        proof {
            assert(out@ =~= spec_base16(self.0@));
        }
        Ok(out)
    }
}

} // verus!

use vstd::prelude::*;

use crate::errors::HexError;

pub use crate::transpile::{move_recompile_to_evm, mv_evm_instruction_recompile};

verus! {

// Turning a hexadecimal string (optionally prefixed with `0x` or
// `0X`) into bytes.  The whole behaviour is stated over the byte
// values of the string, digit by digit.

/// Whether a byte is an ASCII hexadecimal digit.
pub open spec fn is_hex_digit(c: u8) -> bool {
    (48 <= c <= 57) || (97 <= c <= 102) || (65 <= c <= 70)
}

/// The value of an ASCII hexadecimal digit (both cases).
pub open spec fn hex_val(c: u8) -> nat {
    if 48 <= c <= 57 {
        (c - 48) as nat
    } else if 97 <= c <= 102 {
        (c - 87) as nat
    } else if 65 <= c <= 70 {
        (c - 55) as nat
    } else {
        0
    }
}

/// The digit string with a leading `0x` or `0X` removed.
pub open spec fn strip_0x(s: Seq<u8>) -> Seq<u8> {
    if s.len() >= 2 && s[0] == 48 && (s[1] == 120 || s[1] == 88) {
        s.skip(2)
    } else {
        s
    }
}

/// Whether a digit string decodes cleanly: even length, every byte a
/// hexadecimal digit.
pub open spec fn hex_decode_ok(s: Seq<u8>) -> bool {
    s.len() % 2 == 0 && (forall|i: int| 0 <= i < s.len() ==> is_hex_digit(#[trigger] s[i]))
}

/// The bytes a clean digit string decodes to: one byte for each digit
/// pair, high digit first.
pub open spec fn hex_bytes(s: Seq<u8>) -> Seq<u8> {
    Seq::new(s.len() / 2, |i: int| (hex_val(s[2 * i]) * 16 + hex_val(s[2 * i + 1])) as u8)
}

/// The value of one hexadecimal digit byte, or `None`.
fn hex_digit_val(c: u8) -> (r: Option<u8>)
    ensures
        match r {
            Some(v) => is_hex_digit(c) && v as nat == hex_val(c) && v < 16,
            None => !is_hex_digit(c),
        },
{
    if 48 <= c && c <= 57 {
        Some(c - 48)
    } else if 97 <= c && c <= 102 {
        Some(c - 87)
    } else if 65 <= c && c <= 70 {
        Some(c - 55)
    } else {
        None
    }
}

/// Decodes a hexadecimal byte string, tolerating one `0x` or `0X`
/// prefix, into the bytes its digit pairs spell.  A string of odd
/// digit length and a byte outside the hexadecimal digits are the two
/// errors, in that order of checking.
pub fn bytes_from_hex(hex: &Vec<u8>) -> (r: Result<Vec<u8>, HexError>)
    ensures
        match r {
            Ok(v) => hex_decode_ok(strip_0x(hex.deep_view())) && v.deep_view() == hex_bytes(
                strip_0x(hex.deep_view()),
            ),
            Err(HexError::OddLength) => strip_0x(hex.deep_view()).len() % 2 != 0,
            Err(HexError::InvalidHexCharacter) => strip_0x(hex.deep_view()).len() % 2 == 0
                && !hex_decode_ok(strip_0x(hex.deep_view())),
        },
{
    let start: usize = if hex.len() >= 2 && hex[0] == 48 && (hex[1] == 120 || hex[1] == 88) {
        2
    } else {
        0
    };
    let ghost s = strip_0x(hex.deep_view());
    proof {
        assert(s =~= hex.deep_view().skip(start as int));
    }
    let n = hex.len();
    if (n - start) % 2 != 0 {
        return Err(HexError::OddLength);
    }
    let mut out: Vec<u8> = Vec::new();
    let mut i: usize = start;
    while i < n
        invariant
            start <= i <= n,
            n == hex@.len(),
            (i - start) % 2 == 0,
            (n - start) % 2 == 0,
            s == strip_0x(hex.deep_view()),
            s =~= hex.deep_view().skip(start as int),
            forall|j: int| start <= j < i ==> is_hex_digit(#[trigger] hex.deep_view()[j]),
            out.deep_view() =~= hex_bytes(s).subrange(0, ((i - start) / 2) as int),
        decreases n - i,
    {
        let hi = match hex_digit_val(hex[i]) {
            Some(v) => v,
            None => {
                proof {
                    assert(s[i - start] == hex.deep_view()[i as int]);
                    assert(!is_hex_digit(s[i - start]));
                }
                return Err(HexError::InvalidHexCharacter);
            },
        };
        let lo = match hex_digit_val(hex[i + 1]) {
            Some(v) => v,
            None => {
                proof {
                    assert(s[i + 1 - start] == hex.deep_view()[i + 1]);
                    assert(!is_hex_digit(s[i + 1 - start]));
                }
                return Err(HexError::InvalidHexCharacter);
            },
        };
        let ghost pre = out.deep_view();
        out.push(hi * 16 + lo);
        proof {
            let k = (i - start) / 2;
            assert(s[2 * k] == hex.deep_view()[i as int]);
            assert(s[2 * k + 1] == hex.deep_view()[i + 1]);
            assert(out.deep_view() =~= pre.push((hex_val(s[2 * k]) * 16 + hex_val(
                s[2 * k + 1],
            )) as u8));
            assert(out.deep_view() =~= hex_bytes(s).subrange(0, k + 1));
        }
        i = i + 2;
    }
    proof {
        assert(out.deep_view() =~= hex_bytes(s));
    }
    Ok(out)
}

} // verus!

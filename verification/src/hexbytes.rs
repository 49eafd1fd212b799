//! Hex text to bytes: the decoding compiled bytecode arrives in.

use vstd::prelude::*;

verus! {

use vstd::string::StringSliceAdditionalSpecFns;

/// The value of one hex digit, in either case; `None` for any other byte.
pub open spec fn hex_digit_value(b: u8) -> Option<u8> {
    if 48 <= b <= 57 {
        Option::Some((b - 48) as u8)
    } else if 97 <= b <= 102 {
        Option::Some((b - 87) as u8)
    } else if 65 <= b <= 70 {
        Option::Some((b - 55) as u8)
    } else {
        Option::None
    }
}

/// The bytes a hex string denotes, two digits each; `None` for an odd
/// length or a non-digit.
pub open spec fn hex_decode_spec(s: Seq<u8>) -> Option<Seq<u8>>
    decreases s.len(),
{
    if s.len() == 0 {
        Option::Some(Seq::empty())
    } else if s.len() == 1 {
        Option::None
    } else {
        match (hex_digit_value(s[0]), hex_digit_value(s[1])) {
            (Option::Some(hi), Option::Some(lo)) => match hex_decode_spec(s.skip(2)) {
                Option::Some(rest) => Option::Some(seq![(hi * 16 + lo) as u8] + rest),
                Option::None => Option::None,
            },
            _ => Option::None,
        }
    }
}

/// Decode a hex string to its bytes; an odd length or a byte that is no
/// hex digit fails, and nothing partial is returned.
pub fn from_hex(s: &str) -> (r: Option<Vec<u8>>)
    ensures
        match r {
            Option::Some(v) => hex_decode_spec(s.spec_bytes()) == Option::Some(v@),
            Option::None => hex_decode_spec(s.spec_bytes()) is None,
        },
{
    let b = s.as_bytes();
    from_hex_bytes(b)
}

/// Decode hex digits to bytes, pairwise.
pub fn from_hex_bytes(b: &[u8]) -> (r: Option<Vec<u8>>)
    ensures
        match r {
            Option::Some(v) => hex_decode_spec(b@) == Option::Some(v@),
            Option::None => hex_decode_spec(b@) is None,
        },
    decreases b@.len(),
{
    let n = b.len();
    if n == 0 {
        let v: Vec<u8> = Vec::new();
        proof {
            assert(v@ =~= Seq::<u8>::empty());
        }
        return Some(v);
    }
    if n == 1 {
        return None;
    }
    let hi = match digit_value(b[0]) {
        Some(d) => d,
        None => {
            return None;
        },
    };
    let lo = match digit_value(b[1]) {
        Some(d) => d,
        None => {
            return None;
        },
    };
    let rest = &b[2..n];
    proof {
        assert(rest@ =~= b@.skip(2));
    }
    match from_hex_bytes(rest) {
        Some(mut v) => {
            v.insert(0, hi * 16 + lo);
            proof {
                assert(v@ =~= seq![(hi * 16 + lo) as u8] + hex_decode_spec(b@.skip(2))->Some_0);
            }
            Some(v)
        },
        None => None,
    }
}

/// The value of one hex digit byte.
fn digit_value(b: u8) -> (r: Option<u8>)
    ensures
        r == hex_digit_value(b),
{
    if 48 <= b && b <= 57 {
        Some(b - 48)
    } else if 97 <= b && b <= 102 {
        Some(b - 87)
    } else if 65 <= b && b <= 70 {
        Some(b - 55)
    } else {
        None
    }
}

} // verus!

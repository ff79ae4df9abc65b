//! The dimension string: one or more decimal numbers separated by `x`
//! (for example a plain count, or a width and height whose product gives
//! the total), read off as the product of its parts.

use vstd::prelude::*;
use vstd::string::StrSliceExecFns;
use vstd::string::StringSliceAdditionalSpecFns;

verus! {

/// An ASCII decimal digit.
pub open spec fn is_digit(b: u8) -> bool {
    48 <= b <= 57
}

/// The numeric value of an ASCII decimal digit.
pub open spec fn digit_value(b: u8) -> int
    recommends
        is_digit(b),
{
    b - 48
}

/// The scan over the bytes of a dimension string from position `i`:
/// `prod` is the product of the parts already completed, `cur` the value
/// of the part being read and `curlen` how many of its digits were seen.
/// The scan fails on an empty part, on any byte that is neither a digit
/// nor the `x` separator, and whenever a part or a running product
/// exceeds the machine word range.
pub open spec fn dims_scan(s: Seq<u8>, i: nat, prod: int, cur: int, curlen: nat) -> Option<int>
    decreases s.len() - i,
{
    if i >= s.len() {
        if curlen == 0 {
            None
        } else if prod * cur > usize::MAX {
            None
        } else {
            Some(prod * cur)
        }
    } else if s[i as int] == 120 {
        if curlen == 0 {
            None
        } else if prod * cur > usize::MAX {
            None
        } else {
            dims_scan(s, i + 1, prod * cur, 0, 0)
        }
    } else if is_digit(s[i as int]) {
        if cur * 10 + digit_value(s[i as int]) > usize::MAX {
            None
        } else {
            dims_scan(s, i + 1, prod, cur * 10 + digit_value(s[i as int]), curlen + 1)
        }
    } else {
        None
    }
}

/// What a whole dimension string denotes: the product of its parts, or
/// nothing if it is ill-formed or any value overflows the machine word.
pub open spec fn dims_value(s: Seq<u8>) -> Option<int> {
    dims_scan(s, 0, 1, 0, 0)
}

/// Parses a dimension string such as a plain count or a width-by-height
/// pair joined by `x`, returning the product of the parts. Returns
/// nothing exactly when the string is ill-formed (an empty part, or a
/// byte that is neither an ASCII digit nor `x`) or a part or the product
/// does not fit in a machine word.
pub fn parse_dimensions(dimensions: &str) -> (r: Option<usize>)
    ensures
        (match r {
            Some(v) => dims_value(dimensions.spec_bytes()) == Some(v as int),
            None => dims_value(dimensions.spec_bytes()) is None,
        }),
{
    let bytes = dimensions.as_bytes_vec();
    let n = bytes.len();
    let mut i: usize = 0;
    let mut prod: usize = 1;
    let mut cur: usize = 0;
    let mut curlen: usize = 0;
    while i < n
        invariant
            n == bytes@.len(),
            bytes@ == dimensions.spec_bytes(),
            i <= n,
            curlen <= i,
            dims_value(dimensions.spec_bytes()) == dims_scan(
                bytes@,
                i as nat,
                prod as int,
                cur as int,
                curlen as nat,
            ),
        decreases n - i,
    {
        let b = bytes[i];
        if b == 120 {
            if curlen == 0 {
                return None;
            }
            prod = match prod.checked_mul(cur) {
                Some(p) => p,
                None => {
                    return None;
                },
            };
            cur = 0;
            curlen = 0;
        } else if 48 <= b && b <= 57 {
            let scaled = match cur.checked_mul(10) {
                Some(c) => c,
                None => {
                    return None;
                },
            };
            cur = match scaled.checked_add((b - 48) as usize) {
                Some(c) => c,
                None => {
                    return None;
                },
            };
            curlen = curlen + 1;
        } else {
            return None;
        }
        i = i + 1;
    }
    if curlen == 0 {
        return None;
    }
    prod.checked_mul(cur)
}

} // verus!

//! Value semantics of the arithmetic, bitwise and shift opcodes on signed
//! 32-bit register values. All arithmetic wraps in two's complement, the
//! shifts mask their shift count to the register width, and division and
//! remainder truncate toward zero as the host integers do.

use vstd::prelude::*;

verus! {

/// The sum of two register values, wrapped to 32 bits.
pub open spec fn add_value(a: i32, b: i32) -> i32 {
    vstd::wrapping::i32_specs::wrapping_add(a, b)
}

/// The difference of two register values, wrapped to 32 bits.
pub open spec fn sub_value(a: i32, b: i32) -> i32 {
    vstd::wrapping::i32_specs::wrapping_sub(a, b)
}

/// The product of two register values, wrapped to 32 bits.
pub open spec fn mul_value(a: i32, b: i32) -> i32 {
    vstd::wrapping::i32_specs::wrapping_mul(a, b)
}

/// Division truncating toward zero, on mathematical integers.
pub open spec fn trunc_div(x: int, d: int) -> int
    recommends
        d != 0,
{
    if x == 0 {
        0
    } else if x > 0 && d > 0 {
        x / d
    } else if x < 0 && d < 0 {
        (x * -1) / (d * -1)
    } else if x < 0 {
        ((x * -1) / d) * -1
    } else {
        (x / (d * -1)) * -1
    }
}

/// Remainder of division truncating toward zero: its sign follows the
/// dividend, as the host's remainder operator does.
pub open spec fn trunc_rem(x: int, d: int) -> int
    recommends
        d != 0,
{
    if x == 0 {
        0
    } else if x > 0 && d > 0 {
        x % d
    } else if x < 0 && d < 0 {
        ((x * -1) % (d * -1)) * -1
    } else if x < 0 {
        ((x * -1) % d) * -1
    } else {
        x % (d * -1)
    }
}

/// The quotient of two register values: truncating division, with the one
/// out-of-range quotient wrapped to 32 bits.
pub open spec fn div_value(a: i32, b: i32) -> i32
    recommends
        b != 0,
{
    if a == i32::MIN && b == -1 {
        i32::MIN
    } else {
        trunc_div(a as int, b as int) as i32
    }
}

/// The remainder of two register values under truncating division.
pub open spec fn rem_value(a: i32, b: i32) -> i32
    recommends
        b != 0,
{
    if a == i32::MIN && b == -1 {
        0
    } else {
        trunc_rem(a as int, b as int) as i32
    }
}

/// A product that fits in the 32-bit range is not changed by wrapping.
pub proof fn lemma_mul_value_in_range(a: i32, b: i32)
    requires
        i32::MIN <= a * b <= i32::MAX,
    ensures
        mul_value(a, b) == a * b,
{
    let p = a * b;
    if p >= 0 {
        vstd::arithmetic::div_mod::lemma_small_mod(p as nat, 0x1_0000_0000nat);
    } else {
        vstd::arithmetic::div_mod::lemma_mod_add_multiples_vanish(p, 0x1_0000_0000);
        vstd::arithmetic::div_mod::lemma_small_mod((p + 0x1_0000_0000) as nat, 0x1_0000_0000nat);
    }
}

/// The truncated quotient of two nonzero-divisor register values stays in
/// the 32-bit range except for the single overflowing pair.
pub proof fn lemma_trunc_div_range(a: i32, b: i32)
    requires
        b != 0,
    ensures
        a == i32::MIN && b == -1 ==> trunc_div(a as int, b as int) == 0x8000_0000,
        !(a == i32::MIN && b == -1) ==> i32::MIN <= trunc_div(a as int, b as int) <= i32::MAX,
{
    let x = a as int;
    let d = b as int;
    if x == 0 {
    } else if x > 0 && d > 0 {
        vstd::arithmetic::div_mod::lemma_div_pos_is_pos(x, d);
        vstd::arithmetic::div_mod::lemma_div_nonincreasing(x, d);
    } else if x < 0 && d < 0 {
        vstd::arithmetic::div_mod::lemma_div_pos_is_pos(x * -1, d * -1);
        if d == -1 {
            vstd::arithmetic::div_mod::lemma_div_basics(x * -1);
        } else {
            vstd::arithmetic::div_mod::lemma_div_is_ordered_by_denominator(x * -1, 2, d * -1);
            vstd::arithmetic::div_mod::lemma_div_is_ordered(x * -1, 0x8000_0000, 2);
        }
    } else if x < 0 {
        vstd::arithmetic::div_mod::lemma_div_pos_is_pos(x * -1, d);
        vstd::arithmetic::div_mod::lemma_div_nonincreasing(x * -1, d);
    } else {
        vstd::arithmetic::div_mod::lemma_div_pos_is_pos(x, d * -1);
        vstd::arithmetic::div_mod::lemma_div_nonincreasing(x, d * -1);
    }
}

/// The truncated remainder of two register values stays in the 32-bit
/// range whenever the divisor is nonzero and the quotient does not
/// overflow.
pub proof fn lemma_trunc_rem_range(a: i32, b: i32)
    requires
        b != 0,
    ensures
        !(a == i32::MIN && b == -1) ==> i32::MIN <= trunc_rem(a as int, b as int) <= i32::MAX,
{
    let x = a as int;
    let d = b as int;
    if x == 0 {
    } else if x > 0 && d > 0 {
        vstd::arithmetic::div_mod::lemma_mod_bound(x, d);
    } else if x < 0 && d < 0 {
        vstd::arithmetic::div_mod::lemma_mod_bound(x * -1, d * -1);
    } else if x < 0 {
        vstd::arithmetic::div_mod::lemma_mod_bound(x * -1, d);
    } else {
        vstd::arithmetic::div_mod::lemma_mod_bound(x, d * -1);
    }
}

/// Arithmetic negation, wrapped to 32 bits.
pub open spec fn neg_value(a: i32) -> i32 {
    if a == i32::MIN {
        i32::MIN
    } else {
        (-a) as i32
    }
}

/// Absolute value, wrapped to 32 bits.
pub open spec fn abs_value(a: i32) -> i32 {
    if a == i32::MIN {
        i32::MIN
    } else if a < 0 {
        (-a) as i32
    } else {
        a
    }
}

/// Bitwise conjunction.
pub open spec fn and_value(a: i32, b: i32) -> i32 {
    a & b
}

/// Bitwise disjunction.
pub open spec fn or_value(a: i32, b: i32) -> i32 {
    a | b
}

/// Bitwise exclusive disjunction.
pub open spec fn xor_value(a: i32, b: i32) -> i32 {
    a ^ b
}

/// Bitwise complement.
pub open spec fn not_value(a: i32) -> i32 {
    !a
}

/// Left shift of `a` by `b` bit positions; the shift count is taken
/// modulo the register width, as the host's wrapping shift does.
pub open spec fn shl_value(a: i32, b: i32) -> i32 {
    vstd::wrapping::i32_specs::wrapping_shl(a, b as u32)
}

/// Arithmetic (sign-extending) right shift of `a` by `b` bit positions;
/// the shift count is taken modulo the register width.
pub open spec fn shr_value(a: i32, b: i32) -> i32 {
    vstd::wrapping::i32_specs::wrapping_shr(a, b as u32)
}

} // verus!

//! How many bits it takes to store an integer.
//!
//! The count is the width of the type minus the number of leading zero bits
//! of the value's two's complement bit pattern. Zero takes no bits, a
//! positive value `v` takes `floor(log2(v)) + 1` bits, and a negative value
//! takes the full width of its type, since its top bit is set.

use vstd::arithmetic::div_mod::{lemma_basic_div, lemma_div_non_zero};
use vstd::arithmetic::power2::*;
use vstd::bits::{
    lemma_u16_shr_is_div, lemma_u32_shr_is_div, lemma_u64_shr_is_div, lemma_u8_shr_is_div,
};
use vstd::layout::{signed_int_min_max_values, unsigned_int_max_values};
use vstd::prelude::*;
use vstd::std_specs::bits::*;

verus! {

/// The number of binary digits of `n`: zero for `0`, and otherwise one more
/// than the number of digits of `n / 2`.
pub open spec fn bit_length(n: nat) -> nat
    decreases n,
{
    if n == 0 {
        0
    } else {
        1 + bit_length(n / 2)
    }
}

/// The unsigned number spelled by the two's complement bit pattern of `value`
/// in a type of `width` bits.
pub open spec fn bit_pattern(value: int, width: nat) -> nat {
    if value >= 0 {
        value as nat
    } else {
        (pow2(width) + value) as nat
    }
}

/// The number of bits needed to store `value` in a type of `width` bits.
pub open spec fn bits_needed(value: int, width: nat) -> nat {
    bit_length(bit_pattern(value, width))
}

/// Whether `value` is representable in an unsigned type of `width` bits.
pub open spec fn fits_unsigned(value: int, width: nat) -> bool {
    0 <= value < pow2(width)
}

/// Whether `value` is representable in a signed type of `width` bits.
pub open spec fn fits_signed(value: int, width: nat) -> bool {
    width >= 1 && -pow2((width - 1) as nat) <= value < pow2((width - 1) as nat)
}

/// A number below `2^n` has at most `n` binary digits.
pub proof fn lemma_bit_length_at_most(x: nat, n: nat)
    requires
        x < pow2(n),
    ensures
        bit_length(x) <= n,
    decreases n,
{
    if x > 0 {
        if n == 0 {
            lemma2_to64();
        } else {
            lemma_pow2_unfold(n);
            lemma_bit_length_at_most(x / 2, (n - 1) as nat);
        }
    }
}

/// A number that reaches `2^(n-1)` has at least `n` binary digits.
pub proof fn lemma_bit_length_at_least(x: nat, n: nat)
    requires
        n >= 1,
        x >= pow2((n - 1) as nat),
    ensures
        bit_length(x) >= n,
    decreases n,
{
    lemma_pow2_pos((n - 1) as nat);
    if n > 1 {
        lemma_pow2_unfold((n - 1) as nat);
        lemma_bit_length_at_least(x / 2, (n - 1) as nat);
    }
}

/// A positive number lies between the two powers of two that its number of
/// binary digits names: the digits of `x` number `floor(log2(x)) + 1`.
pub proof fn lemma_bit_length_bounds(x: nat)
    requires
        x > 0,
    ensures
        bit_length(x) >= 1,
        pow2((bit_length(x) - 1) as nat) <= x < pow2(bit_length(x)),
    decreases x,
{
    if x == 1 {
        assert(bit_length(0) == 0);
        assert(bit_length(1) == 1);
        lemma2_to64();
    } else {
        let half = bit_length(x / 2);
        lemma_bit_length_bounds(x / 2);
        assert(bit_length(x) == half + 1);
        lemma_pow2_unfold(half);
        lemma_pow2_unfold(half + 1);
    }
}

/// The larger of two numbers has at least as many binary digits.
pub proof fn lemma_bit_length_monotonic(x: nat, y: nat)
    requires
        x <= y,
    ensures
        bit_length(x) <= bit_length(y),
    decreases y,
{
    if x > 0 {
        lemma_bit_length_monotonic(x / 2, y / 2);
    }
}

/// The count lies between zero and the width of the type, for every value
/// of a signed or unsigned type of that width.
pub proof fn lemma_bits_needed_range(value: int, width: nat)
    requires
        fits_unsigned(value, width) || fits_signed(value, width),
    ensures
        0 <= bits_needed(value, width) <= width,
{
    lemma_pow2_pos(width);
    if width >= 1 {
        lemma_pow2_unfold(width);
    }
    lemma_bit_length_at_most(bit_pattern(value, width), width);
}

/// Zero needs no bits, whatever the width.
pub proof fn lemma_bits_needed_zero(width: nat)
    ensures
        bits_needed(0, width) == 0,
{
}

/// Every negative value of a signed type needs the full width, since the
/// top bit of its pattern is set; `-1` and the least value of the type are
/// two of them.
pub proof fn lemma_bits_needed_negative(value: int, width: nat)
    requires
        fits_signed(value, width),
        value < 0,
    ensures
        bits_needed(value, width) == width,
        bits_needed(-1, width) == width,
        bits_needed(-pow2((width - 1) as nat), width) == width,
{
    lemma_pow2_unfold(width);
    lemma_pow2_pos((width - 1) as nat);
    let least = -pow2((width - 1) as nat);
    lemma_bit_length_at_least(bit_pattern(value, width), width);
    lemma_bit_length_at_most(bit_pattern(value, width), width);
    lemma_bit_length_at_least(bit_pattern(-1, width), width);
    lemma_bit_length_at_most(bit_pattern(-1, width), width);
    lemma_bit_length_at_least(bit_pattern(least, width), width);
    lemma_bit_length_at_most(bit_pattern(least, width), width);
}

/// The greatest value of an unsigned type needs the full width.
pub proof fn lemma_bits_needed_unsigned_max(width: nat)
    ensures
        bits_needed(pow2(width) - 1, width) == width,
{
    lemma_pow2_pos(width);
    let greatest = (pow2(width) - 1) as nat;
    lemma_bit_length_at_most(greatest, width);
    if width >= 1 {
        lemma_pow2_unfold(width);
        lemma_pow2_pos((width - 1) as nat);
        lemma_bit_length_at_least(greatest, width);
    }
}

/// The greatest value of a signed type needs one bit less than the width.
pub proof fn lemma_bits_needed_signed_max(width: nat)
    requires
        width >= 1,
    ensures
        bits_needed(pow2((width - 1) as nat) - 1, width) == width - 1,
{
    let digits = (width - 1) as nat;
    lemma_pow2_pos(digits);
    let greatest = (pow2(digits) - 1) as nat;
    lemma_bit_length_at_most(greatest, digits);
    if digits >= 1 {
        lemma_pow2_unfold(digits);
        lemma_pow2_pos((digits - 1) as nat);
        lemma_bit_length_at_least(greatest, digits);
    }
}

/// Among the values that are not negative, a larger one never needs fewer
/// bits.
pub proof fn lemma_bits_needed_monotonic(x: int, y: int, width: nat)
    requires
        0 <= x <= y,
    ensures
        bits_needed(x, width) <= bits_needed(y, width),
{
    lemma_bit_length_monotonic(x as nat, y as nat);
}

/// A positive value `v` needs `floor(log2(v)) + 1` bits: it lies between
/// `2^(bits - 1)` and `2^bits`.
pub proof fn lemma_bits_needed_positive(value: int, width: nat)
    requires
        value > 0,
    ensures
        bits_needed(value, width) >= 1,
        pow2((bits_needed(value, width) - 1) as nat) <= value < pow2(bits_needed(value, width)),
{
    lemma_bit_length_bounds(value as nat);
}

/// A type whose values have a known width in bits and a count of the bits
/// that a given value needs.
pub trait BitsNeeded {
    /// The width of the type in bits.
    spec fn width() -> nat;

    /// The value as a mathematical integer.
    spec fn value(&self) -> int;

    /// Returns the minimum number of bits required to store the number:
    /// `0` for zero, `1` for one, `2` for two and three, and so on; the full
    /// width for every negative number.
    fn bits_needed_to_store(&self) -> (bits: u32)
        ensures
            bits == bits_needed(self.value(), Self::width()),
    ;
}

/// Asking again for the bits that a value needs gives the same count again,
/// for every type that has the count.
pub proof fn lemma_bits_needed_deterministic<T: BitsNeeded>(value: T, first: u32, second: u32)
    requires
        call_ensures(T::bits_needed_to_store, (&value,), first),
        call_ensures(T::bits_needed_to_store, (&value,), second),
    ensures
        first == second,
{
}

/// `u128::leading_zeros` of the standard library: the number of zero bits
/// above the binary digits of the value, so that count and digits together
/// fill the 128 bits.
pub assume_specification[ u128::leading_zeros ](i: u128) -> (zeros: u32)
    ensures
        zeros + bit_length(i as nat) == 128,
;

/// `usize::leading_zeros` of the standard library: the number of zero bits
/// above the binary digits of the value, so that count and digits together
/// fill the bits of a `usize`.
pub assume_specification[ usize::leading_zeros ](i: usize) -> (zeros: u32)
    ensures
        zeros + bit_length(i as nat) == usize::BITS,
;

/// The leading zero bits that vstd counts for a `u8` are those above its
/// binary digits.
proof fn lemma_u8_leading_zeros(x: u8)
    ensures
        0 <= u8_leading_zeros(x) <= 8,
        8 - u8_leading_zeros(x) == bit_length(x as nat),
{
    axiom_u8_leading_zeros(x);
    let zeros = u8_leading_zeros(x) as u8;
    let digits = (8 - zeros) as u8;
    lemma2_to64();
    if x != 0 {
        let top = (7 - zeros) as u8;
        assert((x >> top) & 1u8 != 0u8 ==> x >> top != 0u8) by (bit_vector);
        lemma_u8_shr_is_div(x, top);
        lemma_pow2_pos(top as nat);
        if (x as nat) < pow2(top as nat) {
            lemma_basic_div(x as int, pow2(top as nat) as int);
        }
        lemma_bit_length_at_least(x as nat, digits as nat);
        if digits < 8 {
            lemma_u8_shr_is_div(x, digits);
            lemma_pow2_pos(digits as nat);
            if x as nat >= pow2(digits as nat) {
                lemma_div_non_zero(x as int, pow2(digits as nat) as int);
            }
        }
        lemma_bit_length_at_most(x as nat, digits as nat);
    }
}

/// The leading zero bits that vstd counts for a `u16` are those above its
/// binary digits.
proof fn lemma_u16_leading_zeros(x: u16)
    ensures
        0 <= u16_leading_zeros(x) <= 16,
        16 - u16_leading_zeros(x) == bit_length(x as nat),
{
    axiom_u16_leading_zeros(x);
    let zeros = u16_leading_zeros(x) as u16;
    let digits = (16 - zeros) as u16;
    lemma2_to64();
    if x != 0 {
        let top = (15 - zeros) as u16;
        assert((x >> top) & 1u16 != 0u16 ==> x >> top != 0u16) by (bit_vector);
        lemma_u16_shr_is_div(x, top);
        lemma_pow2_pos(top as nat);
        if (x as nat) < pow2(top as nat) {
            lemma_basic_div(x as int, pow2(top as nat) as int);
        }
        lemma_bit_length_at_least(x as nat, digits as nat);
        if digits < 16 {
            lemma_u16_shr_is_div(x, digits);
            lemma_pow2_pos(digits as nat);
            if x as nat >= pow2(digits as nat) {
                lemma_div_non_zero(x as int, pow2(digits as nat) as int);
            }
        }
        lemma_bit_length_at_most(x as nat, digits as nat);
    }
}

/// The leading zero bits that vstd counts for a `u32` are those above its
/// binary digits.
proof fn lemma_u32_leading_zeros(x: u32)
    ensures
        0 <= u32_leading_zeros(x) <= 32,
        32 - u32_leading_zeros(x) == bit_length(x as nat),
{
    axiom_u32_leading_zeros(x);
    let zeros = u32_leading_zeros(x) as u32;
    let digits = (32 - zeros) as u32;
    lemma2_to64();
    if x != 0 {
        let top = (31 - zeros) as u32;
        assert((x >> top) & 1u32 != 0u32 ==> x >> top != 0u32) by (bit_vector);
        lemma_u32_shr_is_div(x, top);
        lemma_pow2_pos(top as nat);
        if (x as nat) < pow2(top as nat) {
            lemma_basic_div(x as int, pow2(top as nat) as int);
        }
        lemma_bit_length_at_least(x as nat, digits as nat);
        if digits < 32 {
            lemma_u32_shr_is_div(x, digits);
            lemma_pow2_pos(digits as nat);
            if x as nat >= pow2(digits as nat) {
                lemma_div_non_zero(x as int, pow2(digits as nat) as int);
            }
        }
        lemma_bit_length_at_most(x as nat, digits as nat);
    }
}

/// The leading zero bits that vstd counts for a `u64` are those above its
/// binary digits.
proof fn lemma_u64_leading_zeros(x: u64)
    ensures
        0 <= u64_leading_zeros(x) <= 64,
        64 - u64_leading_zeros(x) == bit_length(x as nat),
{
    axiom_u64_leading_zeros(x);
    let zeros = u64_leading_zeros(x) as u64;
    let digits = (64 - zeros) as u64;
    lemma2_to64();
    if x != 0 {
        let top = (63 - zeros) as u64;
        assert((x >> top) & 1u64 != 0u64 ==> x >> top != 0u64) by (bit_vector);
        lemma_u64_shr_is_div(x, top);
        lemma_pow2_pos(top as nat);
        if (x as nat) < pow2(top as nat) {
            lemma_basic_div(x as int, pow2(top as nat) as int);
        }
        lemma_bit_length_at_least(x as nat, digits as nat);
        if digits < 64 {
            lemma_u64_shr_is_div(x, digits);
            lemma_pow2_pos(digits as nat);
            if x as nat >= pow2(digits as nat) {
                lemma_div_non_zero(x as int, pow2(digits as nat) as int);
            }
        }
        lemma_bit_length_at_most(x as nat, digits as nat);
    }
}

/// Cast to `u8`, an `i8` keeps its two's complement bit pattern.
proof fn lemma_i8_bit_pattern(x: i8)
    ensures
        (x as u8) as int == bit_pattern(x as int, 8),
{
    let pattern = x as u8;
    assert(pattern as int == if x >= 0 {
        x as int
    } else {
        x + 0x100
    }) by (bit_vector)
        requires
            pattern == x as u8,
    ;
    lemma2_to64();
}

/// Cast to `u16`, an `i16` keeps its two's complement bit pattern.
proof fn lemma_i16_bit_pattern(x: i16)
    ensures
        (x as u16) as int == bit_pattern(x as int, 16),
{
    let pattern = x as u16;
    assert(pattern as int == if x >= 0 {
        x as int
    } else {
        x + 0x1_0000
    }) by (bit_vector)
        requires
            pattern == x as u16,
    ;
    lemma2_to64();
}

/// Cast to `u32`, an `i32` keeps its two's complement bit pattern.
proof fn lemma_i32_bit_pattern(x: i32)
    ensures
        (x as u32) as int == bit_pattern(x as int, 32),
{
    let pattern = x as u32;
    assert(pattern as int == if x >= 0 {
        x as int
    } else {
        x + 0x1_0000_0000
    }) by (bit_vector)
        requires
            pattern == x as u32,
    ;
    lemma2_to64();
}

/// Cast to `u64`, an `i64` keeps its two's complement bit pattern.
proof fn lemma_i64_bit_pattern(x: i64)
    ensures
        (x as u64) as int == bit_pattern(x as int, 64),
{
    let pattern = x as u64;
    assert(pattern as int == if x >= 0 {
        x as int
    } else {
        x + 0x1_0000_0000_0000_0000
    }) by (bit_vector)
        requires
            pattern == x as u64,
    ;
    lemma2_to64();
}

/// Cast to `u128`, an `i128` keeps its two's complement bit pattern.
proof fn lemma_i128_bit_pattern(x: i128)
    ensures
        (x as u128) as int == bit_pattern(x as int, 128),
{
    let pattern = x as u128;
    assert(pattern as int == if x >= 0 {
        x as int
    } else {
        x + 0x1_0000_0000_0000_0000_0000_0000_0000_0000
    }) by (bit_vector)
        requires
            pattern == x as u128,
    ;
    unsigned_int_max_values();
}

/// Cast to `usize`, an `isize` keeps its two's complement bit pattern.
proof fn lemma_isize_bit_pattern(x: isize)
    ensures
        (x as usize) as int == bit_pattern(x as int, isize::BITS as nat),
{
    if isize::BITS == 64 {
        lemma_i64_bit_pattern(x as i64);
    } else {
        lemma_i32_bit_pattern(x as i32);
    }
}

impl BitsNeeded for u8 {
    open spec fn width() -> nat {
        8
    }

    open spec fn value(&self) -> int {
        *self as int
    }

    fn bits_needed_to_store(&self) -> (bits: u32)
        ensures
            bits <= u8::BITS,
    {
        proof {
            lemma_u8_leading_zeros(*self);
        }
        u8::BITS - self.leading_zeros()
    }
}

impl BitsNeeded for u16 {
    open spec fn width() -> nat {
        16
    }

    open spec fn value(&self) -> int {
        *self as int
    }

    fn bits_needed_to_store(&self) -> (bits: u32)
        ensures
            bits <= u16::BITS,
    {
        proof {
            lemma_u16_leading_zeros(*self);
        }
        u16::BITS - self.leading_zeros()
    }
}

impl BitsNeeded for u32 {
    open spec fn width() -> nat {
        32
    }

    open spec fn value(&self) -> int {
        *self as int
    }

    fn bits_needed_to_store(&self) -> (bits: u32)
        ensures
            bits <= u32::BITS,
    {
        proof {
            lemma_u32_leading_zeros(*self);
        }
        u32::BITS - self.leading_zeros()
    }
}

impl BitsNeeded for u64 {
    open spec fn width() -> nat {
        64
    }

    open spec fn value(&self) -> int {
        *self as int
    }

    fn bits_needed_to_store(&self) -> (bits: u32)
        ensures
            bits <= u64::BITS,
    {
        proof {
            lemma_u64_leading_zeros(*self);
        }
        u64::BITS - self.leading_zeros()
    }
}

impl BitsNeeded for u128 {
    open spec fn width() -> nat {
        128
    }

    open spec fn value(&self) -> int {
        *self as int
    }

    fn bits_needed_to_store(&self) -> (bits: u32)
        ensures
            bits <= u128::BITS,
    {
        u128::BITS - self.leading_zeros()
    }
}

impl BitsNeeded for usize {
    open spec fn width() -> nat {
        usize::BITS as nat
    }

    open spec fn value(&self) -> int {
        *self as int
    }

    fn bits_needed_to_store(&self) -> (bits: u32)
        ensures
            bits <= usize::BITS,
    {
        usize::BITS - self.leading_zeros()
    }
}

impl BitsNeeded for i8 {
    open spec fn width() -> nat {
        8
    }

    open spec fn value(&self) -> int {
        *self as int
    }

    fn bits_needed_to_store(&self) -> (bits: u32)
        ensures
            bits <= i8::BITS,
            *self < 0 ==> bits == i8::BITS,
    {
        let pattern: u8 = #[verifier::truncate] (*self as u8);
        proof {
            lemma_i8_bit_pattern(*self);
            if *self < 0 {
                signed_int_min_max_values();
                lemma_bits_needed_negative(*self as int, 8);
            }
            lemma_u8_leading_zeros(pattern);
        }
        i8::BITS - pattern.leading_zeros()
    }
}

impl BitsNeeded for i16 {
    open spec fn width() -> nat {
        16
    }

    open spec fn value(&self) -> int {
        *self as int
    }

    fn bits_needed_to_store(&self) -> (bits: u32)
        ensures
            bits <= i16::BITS,
            *self < 0 ==> bits == i16::BITS,
    {
        let pattern: u16 = #[verifier::truncate] (*self as u16);
        proof {
            lemma_i16_bit_pattern(*self);
            if *self < 0 {
                signed_int_min_max_values();
                lemma_bits_needed_negative(*self as int, 16);
            }
            lemma_u16_leading_zeros(pattern);
        }
        i16::BITS - pattern.leading_zeros()
    }
}

impl BitsNeeded for i32 {
    open spec fn width() -> nat {
        32
    }

    open spec fn value(&self) -> int {
        *self as int
    }

    fn bits_needed_to_store(&self) -> (bits: u32)
        ensures
            bits <= i32::BITS,
            *self < 0 ==> bits == i32::BITS,
    {
        let pattern: u32 = #[verifier::truncate] (*self as u32);
        proof {
            lemma_i32_bit_pattern(*self);
            if *self < 0 {
                signed_int_min_max_values();
                lemma_bits_needed_negative(*self as int, 32);
            }
            lemma_u32_leading_zeros(pattern);
        }
        i32::BITS - pattern.leading_zeros()
    }
}

impl BitsNeeded for i64 {
    open spec fn width() -> nat {
        64
    }

    open spec fn value(&self) -> int {
        *self as int
    }

    fn bits_needed_to_store(&self) -> (bits: u32)
        ensures
            bits <= i64::BITS,
            *self < 0 ==> bits == i64::BITS,
    {
        let pattern: u64 = #[verifier::truncate] (*self as u64);
        proof {
            lemma_i64_bit_pattern(*self);
            if *self < 0 {
                signed_int_min_max_values();
                lemma_bits_needed_negative(*self as int, 64);
            }
            lemma_u64_leading_zeros(pattern);
        }
        i64::BITS - pattern.leading_zeros()
    }
}

impl BitsNeeded for i128 {
    open spec fn width() -> nat {
        128
    }

    open spec fn value(&self) -> int {
        *self as int
    }

    fn bits_needed_to_store(&self) -> (bits: u32)
        ensures
            bits <= i128::BITS,
            *self < 0 ==> bits == i128::BITS,
    {
        let pattern: u128 = #[verifier::truncate] (*self as u128);
        proof {
            lemma_i128_bit_pattern(*self);
            if *self < 0 {
                signed_int_min_max_values();
                lemma_bits_needed_negative(*self as int, 128);
            }
        }
        i128::BITS - pattern.leading_zeros()
    }
}

impl BitsNeeded for isize {
    open spec fn width() -> nat {
        isize::BITS as nat
    }

    open spec fn value(&self) -> int {
        *self as int
    }

    fn bits_needed_to_store(&self) -> (bits: u32)
        ensures
            bits <= isize::BITS,
            *self < 0 ==> bits == isize::BITS,
    {
        let pattern: usize = #[verifier::truncate] (*self as usize);
        proof {
            lemma_isize_bit_pattern(*self);
            if *self < 0 {
                signed_int_min_max_values();
                lemma_bits_needed_negative(*self as int, isize::BITS as nat);
            }
        }
        isize::BITS - pattern.leading_zeros()
    }
}

} // verus!

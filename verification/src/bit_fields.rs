//! Bit ranges and bit flags within a `u32` register, with checked assignment, and the
//! error types of bit-field operations.
//!
//! A bit range is given by its first bit `start` and its `width`; it stores values from
//! zero up to `2^width - 1`.

use vstd::prelude::*;

verus! {

/// Error for converting a set of flag names into a bit field with a zero-able backing type.
#[derive(Debug)]
pub struct TryFromFlagSetError;

/// Error for converting a set of flag names into a bit field with a non-zero backing type.
#[derive(Debug)]
pub enum NonZeroTryFromFlagSetError {
    /// Feature flag given in set which is not defined in bit field.
    MissingFlag,
    /// No feature flags given, which would results in zero NonZero type.
    ZeroFlags,
}

/// Error for converting a map of range names to values into a bit field with a zero-able
/// backing type.
#[derive(Debug)]
pub enum TryFromFieldMapError {
    /// Bit range given in map which is not defined in bit field.
    UnknownRange,
    /// Failed to assign value from field map.
    CheckedAssign(CheckedAssignError),
}

/// Error for converting a map of range names to values into a bit field with a non-zero
/// backing type.
#[derive(Debug)]
pub enum NonZeroTryFromFieldMapError {
    /// Bit range given in map which is not defined in bit field.
    UnknownRange,
    /// Failed to assign value from field map.
    CheckedAssign(CheckedAssignError),
    /// No non-zero bit ranges given, which would results in zero NonZero type.
    ZeroRanges,
}

/// Error for converting a set of flags and a map of ranges into a bit field with a
/// zero-able backing type.
#[derive(Debug)]
pub enum TryFromFlagSetAndFieldMapError {
    /// Feature flag given in set which is not defined in bit field.
    MissingFlag,
    /// Bit range given in map which is not defined in bit field.
    UnknownRange,
    /// Failed to assign value from field map.
    CheckedAssign(CheckedAssignError),
}

/// Error for converting a set of flags and a map of ranges into a bit field with a
/// non-zero backing type.
#[derive(Debug)]
pub enum NonZeroTryFromFlagSetAndFieldMapError {
    /// Feature flag given in set which is not defined in bit field.
    MissingFlag,
    /// Bit range given in map which is not defined in bit field.
    UnknownRange,
    /// Failed to assign value from field map.
    CheckedAssign(CheckedAssignError),
    /// No bit flags or non-zero bit ranges given, which would results in zero NonZero type.
    Zero,
}

/// Error of [`checked_add_assign`].
#[derive(Debug, PartialEq, Eq, Clone, Copy)]
pub enum CheckedAddAssignError {
    /// Operation would result in overflow of bit range.
    Overflow,
    /// Given value is more than maximum value storable in bit range.
    OutOfRange,
}

/// Error of [`checked_sub_assign`].
#[derive(Debug, PartialEq, Eq, Clone, Copy)]
pub enum CheckedSubAssignError {
    /// Operation would result in underflow of bit range.
    Underflow,
    /// Given value is more than maximum value storable in bit range.
    OutOfRange,
}

/// Error of subtracting from a bit range of a non-zero backing type.
#[derive(Debug, PartialEq, Eq, Clone, Copy)]
pub enum NonZeroCheckedSubAssignError {
    /// Operation would result in underflow of bit range.
    Underflow,
    /// Given value is more than maximum value storable in bit range.
    OutOfRange,
    /// Operation would result in zero value.
    Zero,
}

/// Error of [`checked_assign`]: the value is greater than the range can store.
#[derive(Debug, PartialEq, Eq, Clone, Copy)]
pub struct CheckedAssignError;

/// Error of assigning to a bit range of a non-zero backing type.
#[derive(Debug, PartialEq, Eq, Clone, Copy)]
pub enum NonZeroCheckedAssignError {
    /// Given value is greater than maximum storable value in bit range.
    Overflow,
    /// Given value is zero.
    Zero,
}

/// A bit range of a `u32` lies within its 32 bits and is not empty.
pub open spec fn valid_range(start: u32, width: u32) -> bool {
    0 < width && start + width <= 32
}

/// The largest value a range of `width` bits stores.
pub open spec fn range_max(width: u32) -> u32 {
    if width >= 32 {
        0xffff_ffffu32
    } else {
        ((1u32 << width) - 1) as u32
    }
}

/// The value stored in the bits `start .. start + width` of `x`.
pub open spec fn get_range(x: u32, start: u32, width: u32) -> u32 {
    (x >> start) & range_max(width)
}

/// `x` with the bits `start .. start + width` holding `v` and every other bit unchanged.
pub open spec fn set_range(x: u32, start: u32, width: u32, v: u32) -> u32 {
    (x & !(range_max(width) << start)) | ((v & range_max(width)) << start)
}

/// Whether bit `bit` of `x` is set.
pub open spec fn get_bit(x: u32, bit: u32) -> bool {
    (x >> bit) & 1 == 1
}

/// `x` with bit `bit` set to `on` and every other bit unchanged.
pub open spec fn set_bit(x: u32, bit: u32, on: bool) -> u32 {
    if on {
        x | (1u32 << bit)
    } else {
        x & !(1u32 << bit)
    }
}

/// The largest value a range of `width` bits stores.
pub fn range_max_value(width: u32) -> (r: u32)
    requires
        0 < width <= 32,
    ensures
        r == range_max(width),
{
    if width >= 32 {
        0xffff_ffffu32
    } else {
        assert(1u32 << width >= 1) by (bit_vector)
            requires
                0 < width < 32,
        ;
        (1u32 << width) - 1
    }
}

/// Reads the bits `start .. start + width` of `x`.
pub fn get(x: u32, start: u32, width: u32) -> (r: u32)
    requires
        valid_range(start, width),
    ensures
        r == get_range(x, start, width),
        r <= range_max(width),
{
    let m = range_max_value(width);
    assert(((x >> start) & m) <= m) by (bit_vector);
    (x >> start) & m
}

/// Stores `value` in the bits `start .. start + width` of `x`, leaving every other bit
/// unchanged, or errs, leaving `x` unchanged, when `value` does not fit in the range.
pub fn checked_assign(x: &mut u32, start: u32, width: u32, value: u32) -> (r: Result<(), CheckedAssignError>)
    requires
        valid_range(start, width),
    ensures
        r is Ok <==> value <= range_max(width),
        r is Ok ==> *final(x) == set_range(*old(x), start, width, value),
        r is Err ==> *final(x) == *old(x),
{
    let m = range_max_value(width);
    if value > m {
        return Err(CheckedAssignError);
    }
    *x = (*x & !(m << start)) | ((value & m) << start);
    Ok(())
}

/// Adds `value` to the bits `start .. start + width` of `x`, or errs, leaving `x`
/// unchanged, when `value` does not fit in the range or the sum overflows it.
pub fn checked_add_assign(x: &mut u32, start: u32, width: u32, value: u32) -> (r: Result<(), CheckedAddAssignError>)
    requires
        valid_range(start, width),
    ensures
        value > range_max(width) ==> r == Err::<(), CheckedAddAssignError>(
            CheckedAddAssignError::OutOfRange,
        ),
        value <= range_max(width) && get_range(*old(x), start, width) + value > range_max(width)
            ==> r == Err::<(), CheckedAddAssignError>(CheckedAddAssignError::Overflow),
        r is Err ==> *final(x) == *old(x),
        r is Ok ==> get_range(*old(x), start, width) + value <= range_max(width) && *final(x)
            == set_range(*old(x), start, width, (get_range(*old(x), start, width) + value) as u32),
{
    let m = range_max_value(width);
    if value > m {
        return Err(CheckedAddAssignError::OutOfRange);
    }
    let current = get(*x, start, width);
    if current > m - value {
        return Err(CheckedAddAssignError::Overflow);
    }
    let sum = current + value;
    *x = (*x & !(m << start)) | ((sum & m) << start);
    Ok(())
}

/// Subtracts `value` from the bits `start .. start + width` of `x`, or errs, leaving `x`
/// unchanged, when `value` does not fit in the range or exceeds the stored value.
pub fn checked_sub_assign(x: &mut u32, start: u32, width: u32, value: u32) -> (r: Result<(), CheckedSubAssignError>)
    requires
        valid_range(start, width),
    ensures
        value > range_max(width) ==> r == Err::<(), CheckedSubAssignError>(
            CheckedSubAssignError::OutOfRange,
        ),
        value <= range_max(width) && value > get_range(*old(x), start, width) ==> r == Err::<
            (),
            CheckedSubAssignError,
        >(CheckedSubAssignError::Underflow),
        r is Err ==> *final(x) == *old(x),
        r is Ok ==> value <= get_range(*old(x), start, width) && *final(x) == set_range(
            *old(x),
            start,
            width,
            (get_range(*old(x), start, width) - value) as u32,
        ),
{
    let m = range_max_value(width);
    if value > m {
        return Err(CheckedSubAssignError::OutOfRange);
    }
    let current = get(*x, start, width);
    if value > current {
        return Err(CheckedSubAssignError::Underflow);
    }
    let diff = current - value;
    *x = (*x & !(m << start)) | ((diff & m) << start);
    Ok(())
}

/// Sets bit `bit` of `x` to `on`, leaving every other bit unchanged.
pub fn set_flag(x: &mut u32, bit: u32, on: bool)
    requires
        bit < 32,
    ensures
        *final(x) == set_bit(*old(x), bit, on),
{
    if on {
        *x = *x | (1u32 << bit);
    } else {
        *x = *x & !(1u32 << bit);
    }
}

/// Reading a range gives back the value last stored in it.
pub proof fn lemma_get_after_set(x: u32, start: u32, width: u32, v: u32)
    requires
        valid_range(start, width),
        v <= range_max(width),
    ensures
        get_range(set_range(x, start, width, v), start, width) == v,
{
    let m = range_max(width);
    assert(m == range_max(width));
    assert(((((x & !(m << start)) | ((v & m) << start)) >> start) & m) == v) by (bit_vector)
        requires
            0 < width,
            start + width <= 32,
            v <= m,
            width >= 32 ==> m == 0xffff_ffffu32,
            width < 32 ==> m == ((1u32 << width) - 1) as u32,
    ;
}

/// Storing in a range leaves every range disjoint from it unchanged.
pub proof fn lemma_set_frame(x: u32, start: u32, width: u32, v: u32, s2: u32, w2: u32)
    requires
        valid_range(start, width),
        valid_range(s2, w2),
        s2 + w2 <= start || start + width <= s2,
    ensures
        get_range(set_range(x, start, width, v), s2, w2) == get_range(x, s2, w2),
{
    let m = range_max(width);
    let m2 = range_max(w2);
    assert(((((x & !(m << start)) | ((v & m) << start)) >> s2) & m2) == ((x >> s2) & m2))
        by (bit_vector)
        requires
            0 < width,
            start + width <= 32,
            0 < w2,
            s2 + w2 <= 32,
            s2 + w2 <= start || start + width <= s2,
            width >= 32 ==> m == 0xffff_ffffu32,
            width < 32 ==> m == ((1u32 << width) - 1) as u32,
            w2 >= 32 ==> m2 == 0xffff_ffffu32,
            w2 < 32 ==> m2 == ((1u32 << w2) - 1) as u32,
    ;
}

/// A flag reads back as it was last set, and setting it leaves every other bit unchanged.
pub proof fn lemma_flag_after_set(x: u32, bit: u32, on: bool, other: u32)
    requires
        bit < 32,
        other < 32,
        other != bit,
    ensures
        get_bit(set_bit(x, bit, on), bit) == on,
        get_bit(set_bit(x, bit, on), other) == get_bit(x, other),
{
    assert(((x | (1u32 << bit)) >> bit) & 1 == 1) by (bit_vector)
        requires
            bit < 32,
    ;
    assert(((x & !(1u32 << bit)) >> bit) & 1 == 0) by (bit_vector)
        requires
            bit < 32,
    ;
    assert(((x | (1u32 << bit)) >> other) & 1 == (x >> other) & 1) by (bit_vector)
        requires
            bit < 32,
            other < 32,
            other != bit,
    ;
    assert(((x & !(1u32 << bit)) >> other) & 1 == (x >> other) & 1) by (bit_vector)
        requires
            bit < 32,
            other < 32,
            other != bit,
    ;
}


/// The largest values of the ranges of common widths.
pub proof fn lemma_range_max_values()
    ensures
        range_max(1) == 1,
        range_max(3) == 7,
        range_max(4) == 15,
        range_max(5) == 31,
        range_max(6) == 63,
        range_max(8) == 255,
        range_max(12) == 4095,
        range_max(16) == 65535,
        range_max(32) == 0xffff_ffffu32,
{
    assert(((1u32 << 1u32) - 1) as u32 == 1) by (bit_vector);
    assert(((1u32 << 3u32) - 1) as u32 == 7) by (bit_vector);
    assert(((1u32 << 4u32) - 1) as u32 == 15) by (bit_vector);
    assert(((1u32 << 5u32) - 1) as u32 == 31) by (bit_vector);
    assert(((1u32 << 6u32) - 1) as u32 == 63) by (bit_vector);
    assert(((1u32 << 8u32) - 1) as u32 == 255) by (bit_vector);
    assert(((1u32 << 12u32) - 1) as u32 == 4095) by (bit_vector);
    assert(((1u32 << 16u32) - 1) as u32 == 65535) by (bit_vector);
}

} // verus!

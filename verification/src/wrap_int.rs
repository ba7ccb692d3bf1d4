//! Fixed-width integers with wraparound arithmetic, and the spec functions
//! that describe a single wrapping step.

use vstd::prelude::*;

verus! {

/// Number of representable values of a type whose range is `lo ..= hi`.
pub open spec fn range_size(lo: int, hi: int) -> int {
    hi - lo + 1
}

/// Result of one wrapping step. Here `s` is the unreduced sum or difference
/// of two values of the range `lo ..= hi`, so it misses that range by less
/// than one full period and a single correction brings it back.
pub open spec fn wrap_to(s: int, lo: int, hi: int) -> int {
    if s > hi {
        s - range_size(lo, hi)
    } else if s < lo {
        s + range_size(lo, hi)
    } else {
        s
    }
}

/// Change of the wrap offset in one wrapping step: `1` past the maximum,
/// `-1` past the minimum, `0` when `s` is already representable.
pub open spec fn wrap_step(s: int, lo: int, hi: int) -> int {
    if s > hi {
        1
    } else if s < lo {
        -1
    } else {
        0
    }
}

/// A fixed-width integer type, signed or unsigned: copyable, totally ordered,
/// with a zero and with wraparound addition and subtraction.
pub trait WrapInt: Sized + Copy {
    /// The mathematical value.
    spec fn as_int(self) -> int;

    /// Smallest representable value.
    spec fn min_val() -> int;

    /// Largest representable value.
    spec fn max_val() -> int;

    /// Every value is representable, and the range contains zero.
    proof fn bounds(self)
        ensures
            Self::min_val() <= self.as_int() <= Self::max_val(),
            Self::min_val() <= 0 < Self::max_val(),
    ;

    fn zero() -> (z: Self)
        ensures
            z.as_int() == 0,
    ;

    fn lt(self, rhs: Self) -> (b: bool)
        ensures
            b == (self.as_int() < rhs.as_int()),
    ;

    fn eq_val(self, rhs: Self) -> (b: bool)
        ensures
            b == (self.as_int() == rhs.as_int()),
    ;

    fn wrapping_add(self, rhs: Self) -> (r: Self)
        ensures
            r.as_int() == wrap_to(self.as_int() + rhs.as_int(), Self::min_val(), Self::max_val()),
    ;

    fn wrapping_sub(self, rhs: Self) -> (r: Self)
        ensures
            r.as_int() == wrap_to(self.as_int() - rhs.as_int(), Self::min_val(), Self::max_val()),
    ;
}

impl WrapInt for u8 {
    open spec fn as_int(self) -> int {
        self as int
    }

    open spec fn min_val() -> int {
        u8::MIN as int
    }

    open spec fn max_val() -> int {
        u8::MAX as int
    }

    proof fn bounds(self) {
    }

    fn zero() -> (z: Self) {
        0u8
    }

    fn lt(self, rhs: Self) -> (b: bool) {
        self < rhs
    }

    fn eq_val(self, rhs: Self) -> (b: bool) {
        self == rhs
    }

    fn wrapping_add(self, rhs: Self) -> (r: Self) {
        u8::wrapping_add(self, rhs)
    }

    fn wrapping_sub(self, rhs: Self) -> (r: Self) {
        u8::wrapping_sub(self, rhs)
    }
}

impl WrapInt for u16 {
    open spec fn as_int(self) -> int {
        self as int
    }

    open spec fn min_val() -> int {
        u16::MIN as int
    }

    open spec fn max_val() -> int {
        u16::MAX as int
    }

    proof fn bounds(self) {
    }

    fn zero() -> (z: Self) {
        0u16
    }

    fn lt(self, rhs: Self) -> (b: bool) {
        self < rhs
    }

    fn eq_val(self, rhs: Self) -> (b: bool) {
        self == rhs
    }

    fn wrapping_add(self, rhs: Self) -> (r: Self) {
        u16::wrapping_add(self, rhs)
    }

    fn wrapping_sub(self, rhs: Self) -> (r: Self) {
        u16::wrapping_sub(self, rhs)
    }
}

impl WrapInt for u32 {
    open spec fn as_int(self) -> int {
        self as int
    }

    open spec fn min_val() -> int {
        u32::MIN as int
    }

    open spec fn max_val() -> int {
        u32::MAX as int
    }

    proof fn bounds(self) {
    }

    fn zero() -> (z: Self) {
        0u32
    }

    fn lt(self, rhs: Self) -> (b: bool) {
        self < rhs
    }

    fn eq_val(self, rhs: Self) -> (b: bool) {
        self == rhs
    }

    fn wrapping_add(self, rhs: Self) -> (r: Self) {
        u32::wrapping_add(self, rhs)
    }

    fn wrapping_sub(self, rhs: Self) -> (r: Self) {
        u32::wrapping_sub(self, rhs)
    }
}

impl WrapInt for u64 {
    open spec fn as_int(self) -> int {
        self as int
    }

    open spec fn min_val() -> int {
        u64::MIN as int
    }

    open spec fn max_val() -> int {
        u64::MAX as int
    }

    proof fn bounds(self) {
    }

    fn zero() -> (z: Self) {
        0u64
    }

    fn lt(self, rhs: Self) -> (b: bool) {
        self < rhs
    }

    fn eq_val(self, rhs: Self) -> (b: bool) {
        self == rhs
    }

    fn wrapping_add(self, rhs: Self) -> (r: Self) {
        u64::wrapping_add(self, rhs)
    }

    fn wrapping_sub(self, rhs: Self) -> (r: Self) {
        u64::wrapping_sub(self, rhs)
    }
}

impl WrapInt for i8 {
    open spec fn as_int(self) -> int {
        self as int
    }

    open spec fn min_val() -> int {
        i8::MIN as int
    }

    open spec fn max_val() -> int {
        i8::MAX as int
    }

    proof fn bounds(self) {
    }

    fn zero() -> (z: Self) {
        0i8
    }

    fn lt(self, rhs: Self) -> (b: bool) {
        self < rhs
    }

    fn eq_val(self, rhs: Self) -> (b: bool) {
        self == rhs
    }

    fn wrapping_add(self, rhs: Self) -> (r: Self) {
        i8::wrapping_add(self, rhs)
    }

    fn wrapping_sub(self, rhs: Self) -> (r: Self) {
        i8::wrapping_sub(self, rhs)
    }
}

impl WrapInt for i16 {
    open spec fn as_int(self) -> int {
        self as int
    }

    open spec fn min_val() -> int {
        i16::MIN as int
    }

    open spec fn max_val() -> int {
        i16::MAX as int
    }

    proof fn bounds(self) {
    }

    fn zero() -> (z: Self) {
        0i16
    }

    fn lt(self, rhs: Self) -> (b: bool) {
        self < rhs
    }

    fn eq_val(self, rhs: Self) -> (b: bool) {
        self == rhs
    }

    fn wrapping_add(self, rhs: Self) -> (r: Self) {
        i16::wrapping_add(self, rhs)
    }

    fn wrapping_sub(self, rhs: Self) -> (r: Self) {
        i16::wrapping_sub(self, rhs)
    }
}

impl WrapInt for i32 {
    open spec fn as_int(self) -> int {
        self as int
    }

    open spec fn min_val() -> int {
        i32::MIN as int
    }

    open spec fn max_val() -> int {
        i32::MAX as int
    }

    proof fn bounds(self) {
    }

    fn zero() -> (z: Self) {
        0i32
    }

    fn lt(self, rhs: Self) -> (b: bool) {
        self < rhs
    }

    fn eq_val(self, rhs: Self) -> (b: bool) {
        self == rhs
    }

    fn wrapping_add(self, rhs: Self) -> (r: Self) {
        i32::wrapping_add(self, rhs)
    }

    fn wrapping_sub(self, rhs: Self) -> (r: Self) {
        i32::wrapping_sub(self, rhs)
    }
}

impl WrapInt for i64 {
    open spec fn as_int(self) -> int {
        self as int
    }

    open spec fn min_val() -> int {
        i64::MIN as int
    }

    open spec fn max_val() -> int {
        i64::MAX as int
    }

    proof fn bounds(self) {
    }

    fn zero() -> (z: Self) {
        0i64
    }

    fn lt(self, rhs: Self) -> (b: bool) {
        self < rhs
    }

    fn eq_val(self, rhs: Self) -> (b: bool) {
        self == rhs
    }

    fn wrapping_add(self, rhs: Self) -> (r: Self) {
        i64::wrapping_add(self, rhs)
    }

    fn wrapping_sub(self, rhs: Self) -> (r: Self) {
        i64::wrapping_sub(self, rhs)
    }
}

} // verus!

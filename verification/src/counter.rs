//! The wraparound counter itself: a raw fixed-width value together with a
//! signed wrap offset, mutated in place by wrapping addition and subtraction
//! and compared first by offset, then by raw value.

use std::cmp::Ordering;

use vstd::prelude::*;

use crate::wrap_int::range_size;
use crate::wrap_int::wrap_step;
use crate::wrap_int::wrap_to;
use crate::wrap_int::WrapInt;

verus! {

/// A fixed-width integer together with a signed count of how many times it
/// has wrapped around its representable range, and in which direction.
///
/// Two counters are equal when both the raw value and the wrap offset agree;
/// they are ordered by offset first and by raw value on a tie, which tracks
/// the unbounded magnitude the counter stands for.
pub struct WrappedNum<T: WrapInt> {
    num: T,
    counter: i64,
}

impl<T: WrapInt> WrappedNum<T> {
    /// The raw value currently stored.
    pub closed spec fn raw(self) -> T {
        self.num
    }

    /// Signed number of wraps since construction: positive for wraps past the
    /// maximum, negative for wraps past the minimum.
    pub closed spec fn offset(self) -> int {
        self.counter as int
    }

    /// Mathematical value of the raw value currently stored.
    pub open spec fn value_int(self) -> int {
        self.raw().as_int()
    }

    /// The unbounded magnitude the counter stands for: each upward wrap
    /// accounts for one full period of the type's range.
    pub open spec fn magnitude(self) -> int {
        self.offset() * range_size(T::min_val(), T::max_val()) + self.value_int()
    }

    /// Starts a counter at `init`, with no wraps recorded.
    pub fn new(init: T) -> (r: WrappedNum<T>)
        ensures
            r.raw() == init,
            r.offset() == 0,
    {
        WrappedNum { num: init, counter: 0i64 }
    }

    /// Returns the current raw value. Reading does not change the counter.
    pub fn get(&self) -> (r: T)
        ensures
            r == self.raw(),
    {
        self.num
    }

    /// Adds `inc` with wraparound, raising the wrap offset when the sum rolls
    /// past the maximum and lowering it when a negative `inc` rolls past the
    /// minimum. The magnitude always moves by exactly `inc`, and the offset
    /// by at most one step.
    pub fn wrapping_add(&mut self, inc: T)
        requires
            old(self).value_int() + inc.as_int() > T::max_val() ==> old(self).offset() < i64::MAX,
            old(self).value_int() + inc.as_int() < T::min_val() ==> old(self).offset() > i64::MIN,
        ensures
            final(self).value_int() == wrap_to(
                old(self).value_int() + inc.as_int(),
                T::min_val(),
                T::max_val(),
            ),
            final(self).offset() == old(self).offset() + wrap_step(
                old(self).value_int() + inc.as_int(),
                T::min_val(),
                T::max_val(),
            ),
            final(self).magnitude() == old(self).magnitude() + inc.as_int(),
            -1 <= final(self).offset() - old(self).offset() <= 1,
    {
        proof {
            self.num.bounds();
            inc.bounds();
        }
        let sum = self.num.wrapping_add(inc);
        if sum.lt(self.num) && T::zero().lt(inc) {
            self.counter = self.counter + 1;
        } else if self.num.lt(sum) && inc.lt(T::zero()) {
            self.counter = self.counter - 1;
        }
        self.num = sum;
        proof {
            let m = range_size(T::min_val(), T::max_val());
            let c0 = old(self).offset();
            assert((c0 + 1) * m == c0 * m + m) by (nonlinear_arith);
            assert((c0 - 1) * m == c0 * m - m) by (nonlinear_arith);
        }
    }

    /// Subtracts `dec` with wraparound: the mirror image of `wrapping_add`.
    /// Subtracting a positive `dec` can wrap past the minimum, subtracting a
    /// negative one past the maximum. The magnitude always moves by exactly
    /// `-dec`, and the offset by at most one step.
    pub fn wrapping_sub(&mut self, dec: T)
        requires
            old(self).value_int() - dec.as_int() > T::max_val() ==> old(self).offset() < i64::MAX,
            old(self).value_int() - dec.as_int() < T::min_val() ==> old(self).offset() > i64::MIN,
        ensures
            final(self).value_int() == wrap_to(
                old(self).value_int() - dec.as_int(),
                T::min_val(),
                T::max_val(),
            ),
            final(self).offset() == old(self).offset() + wrap_step(
                old(self).value_int() - dec.as_int(),
                T::min_val(),
                T::max_val(),
            ),
            final(self).magnitude() == old(self).magnitude() - dec.as_int(),
            -1 <= final(self).offset() - old(self).offset() <= 1,
    {
        proof {
            self.num.bounds();
            dec.bounds();
        }
        let diff = self.num.wrapping_sub(dec);
        if diff.lt(self.num) && dec.lt(T::zero()) {
            self.counter = self.counter + 1;
        } else if self.num.lt(diff) && T::zero().lt(dec) {
            self.counter = self.counter - 1;
        }
        self.num = diff;
        proof {
            let m = range_size(T::min_val(), T::max_val());
            let c0 = old(self).offset();
            assert((c0 + 1) * m == c0 * m + m) by (nonlinear_arith);
            assert((c0 - 1) * m == c0 * m - m) by (nonlinear_arith);
        }
    }
}

/// The raw value of a counter always lies in its type's representable range,
/// and that range contains zero.
pub proof fn lemma_value_in_range<T: WrapInt>(c: WrappedNum<T>)
    ensures
        T::min_val() <= c.value_int() <= T::max_val(),
        T::min_val() <= 0 < T::max_val(),
{
    c.num.bounds();
}

impl<T: WrapInt> PartialEq for WrappedNum<T> {
    fn eq(&self, other: &Self) -> (r: bool) {
        self.num.eq_val(other.num) && self.counter == other.counter
    }
}

impl<T: WrapInt> vstd::std_specs::cmp::PartialEqSpecImpl for WrappedNum<T> {
    open spec fn obeys_eq_spec() -> bool {
        true
    }

    open spec fn eq_spec(&self, other: &Self) -> bool {
        self.offset() == other.offset() && self.value_int() == other.value_int()
    }
}

impl<T: WrapInt> PartialOrd for WrappedNum<T> {
    fn partial_cmp(&self, other: &Self) -> (r: Option<Ordering>) {
        if self.counter < other.counter {
            Some(Ordering::Less)
        } else if other.counter < self.counter {
            Some(Ordering::Greater)
        } else if self.num.lt(other.num) {
            Some(Ordering::Less)
        } else if other.num.lt(self.num) {
            Some(Ordering::Greater)
        } else {
            Some(Ordering::Equal)
        }
    }
}

impl<T: WrapInt> vstd::std_specs::cmp::PartialOrdSpecImpl for WrappedNum<T> {
    open spec fn obeys_partial_cmp_spec() -> bool {
        true
    }

    open spec fn partial_cmp_spec(&self, other: &Self) -> Option<Ordering> {
        if self.offset() < other.offset() {
            Some(Ordering::Less)
        } else if other.offset() < self.offset() {
            Some(Ordering::Greater)
        } else if self.value_int() < other.value_int() {
            Some(Ordering::Less)
        } else if other.value_int() < self.value_int() {
            Some(Ordering::Greater)
        } else {
            Some(Ordering::Equal)
        }
    }
}

} // verus!

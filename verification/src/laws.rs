//! Laws of the counter's order and equality: how the composite comparison
//! relates to the unbounded magnitude, and how adding relates to subtracting.

use std::cmp::Ordering;

use vstd::prelude::*;
use vstd::std_specs::cmp::PartialEqSpec;
use vstd::std_specs::cmp::PartialOrdSpec;

use crate::counter::lemma_value_in_range;
use crate::counter::WrappedNum;
use crate::wrap_int::range_size;
use crate::wrap_int::wrap_step;
use crate::wrap_int::wrap_to;
use crate::wrap_int::WrapInt;

verus! {

/// A strictly smaller offset outweighs any difference of raw values, as long
/// as that difference stays below one full period.
proof fn lemma_offset_dominates(c1: int, v1: int, c2: int, v2: int, m: int)
    requires
        c1 < c2,
        v1 - v2 < m,
        0 < m,
    ensures
        c1 * m + v1 < c2 * m + v2,
{
    assert(c1 * m + v1 < c2 * m + v2) by (nonlinear_arith)
        requires
            c1 < c2,
            v1 - v2 < m,
            0 < m,
    ;
}

/// The composite comparison — offset first, raw value on a tie — agrees
/// exactly with comparing the unbounded magnitudes, and two counters are
/// equal exactly when their magnitudes coincide.
pub proof fn lemma_order_reflects_magnitude<T: WrapInt>(a: WrappedNum<T>, b: WrappedNum<T>)
    ensures
        a.partial_cmp_spec(&b) == Some(Ordering::Less) <==> a.magnitude() < b.magnitude(),
        a.partial_cmp_spec(&b) == Some(Ordering::Equal) <==> a.magnitude() == b.magnitude(),
        a.partial_cmp_spec(&b) == Some(Ordering::Greater) <==> a.magnitude() > b.magnitude(),
        a.eq_spec(&b) <==> a.magnitude() == b.magnitude(),
{
    lemma_value_in_range(a);
    lemma_value_in_range(b);
    let m = range_size(T::min_val(), T::max_val());
    if a.offset() < b.offset() {
        lemma_offset_dominates(a.offset(), a.value_int(), b.offset(), b.value_int(), m);
    } else if b.offset() < a.offset() {
        lemma_offset_dominates(b.offset(), b.value_int(), a.offset(), a.value_int(), m);
    }
}

/// Equal starting conditions, one wrap more: a counter whose offset is
/// strictly higher compares greater, whatever the raw values hold.
pub proof fn lemma_wrap_outranks_value<T: WrapInt>(a: WrappedNum<T>, b: WrappedNum<T>)
    requires
        a.offset() < b.offset(),
    ensures
        a.partial_cmp_spec(&b) == Some(Ordering::Less),
        b.partial_cmp_spec(&a) == Some(Ordering::Greater),
{
}

/// While the offsets agree — for instance, while neither counter has ever
/// wrapped — the order is ordinary integer comparison of the raw values.
pub proof fn lemma_same_offset_orders_by_value<T: WrapInt>(a: WrappedNum<T>, b: WrappedNum<T>)
    requires
        a.offset() == b.offset(),
    ensures
        a.partial_cmp_spec(&b) == Some(Ordering::Less) <==> a.value_int() < b.value_int(),
        a.partial_cmp_spec(&b) == Some(Ordering::Equal) <==> a.value_int() == b.value_int(),
        a.partial_cmp_spec(&b) == Some(Ordering::Greater) <==> a.value_int() > b.value_int(),
{
}

/// Counters with the same raw value but different offsets are unequal, and
/// the offset alone decides their order.
pub proof fn lemma_equality_needs_matching_offset<T: WrapInt>(a: WrappedNum<T>, b: WrappedNum<T>)
    requires
        a.value_int() == b.value_int(),
        a.offset() != b.offset(),
    ensures
        !a.eq_spec(&b),
        a.offset() < b.offset() ==> a.partial_cmp_spec(&b) == Some(Ordering::Less),
        b.offset() < a.offset() ==> a.partial_cmp_spec(&b) == Some(Ordering::Greater),
{
}

/// The comparison is a strict total order consistent with equality: every
/// pair is decided, exactly one way, mirrored under swapping, and transitive.
pub proof fn lemma_order_is_strict_total<T: WrapInt>(
    a: WrappedNum<T>,
    b: WrappedNum<T>,
    c: WrappedNum<T>,
)
    ensures
        a.partial_cmp_spec(&b) == Some(Ordering::Less) || a.partial_cmp_spec(&b) == Some(
            Ordering::Equal,
        ) || a.partial_cmp_spec(&b) == Some(Ordering::Greater),
        a.partial_cmp_spec(&b) == Some(Ordering::Equal) <==> a.eq_spec(&b),
        a.partial_cmp_spec(&b) == Some(Ordering::Less) <==> b.partial_cmp_spec(&a) == Some(
            Ordering::Greater,
        ),
        a.partial_cmp_spec(&b) == Some(Ordering::Less) && b.partial_cmp_spec(&c) == Some(
            Ordering::Less,
        ) ==> a.partial_cmp_spec(&c) == Some(Ordering::Less),
{
}

/// Adding the negation of a delta is specified to leave exactly the raw
/// value and offset that subtracting the delta itself leaves: the clauses of
/// `WrappedNum::wrapping_add` under `minus_d` coincide with the clauses of
/// `WrappedNum::wrapping_sub` under `d`.
pub proof fn lemma_add_sub_symmetry<T: WrapInt>(s: WrappedNum<T>, minus_d: T, d: T)
    requires
        minus_d.as_int() == -d.as_int(),
    ensures
        wrap_to(s.value_int() + minus_d.as_int(), T::min_val(), T::max_val()) == wrap_to(
            s.value_int() - d.as_int(),
            T::min_val(),
            T::max_val(),
        ),
        wrap_step(s.value_int() + minus_d.as_int(), T::min_val(), T::max_val()) == wrap_step(
            s.value_int() - d.as_int(),
            T::min_val(),
            T::max_val(),
        ),
{
}

} // verus!

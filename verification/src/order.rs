use vstd::prelude::*;
use vstd::std_specs::cmp::{PartialOrdIs, PartialOrdSpec};

verus! {

/// Whether `value` is strictly above `bound` in the element type's order.
pub open spec fn exceeds<T: PartialOrd>(value: T, bound: T) -> bool {
    value.is_gt(&bound)
}

/// Whether `value` is strictly below `bound` in the element type's order.
pub open spec fn falls_below<T: PartialOrd>(value: T, bound: T) -> bool {
    value.is_lt(&bound)
}

/// Whether `low` is at most `high` in the element type's order.
pub open spec fn at_most<T: PartialOrd>(low: T, high: T) -> bool {
    low.is_le(&high)
}

/// Whether the comparison operators of `T` compute the element type's
/// order.
pub open spec fn obeys_order<T: PartialOrd>() -> bool {
    T::obeys_partial_cmp_spec()
}

/// Whether the order of `T` is mirrored: `x` is below `y` exactly when `y`
/// is above `x`.
pub open spec fn mirrored_order<T: PartialOrd>() -> bool {
    forall|x: T, y: T| #[trigger] falls_below(x, y) <==> exceeds(y, x)
}

/// Whether the order of `T` is total: it is mirrored, and every two values
/// compare. The integers are ordered so; floating-point numbers are not,
/// for want of an order on NaN.
pub open spec fn total_order<T: PartialOrd>() -> bool {
    &&& mirrored_order::<T>()
    &&& forall|x: T, y: T| #[trigger] at_most(x, y) || exceeds(x, y)
}

/// Whether `value` lies within the bounds as far as a mirrored order can
/// tell: it is not below `low` and not above `high`.
pub open spec fn not_outside<T: PartialOrd>(value: T, low: T, high: T) -> bool {
    !falls_below(value, low) && !exceeds(value, high)
}

/// Whether `value` lies between the bounds: `low` is at most `value`, and
/// `value` at most `high`.
pub open spec fn within<T: PartialOrd>(value: T, low: T, high: T) -> bool {
    at_most(low, value) && at_most(value, high)
}

/// The value `x` limited to the range from `low` to `high`.
pub open spec fn clamp_spec<T: PartialOrd>(x: T, low: T, high: T) -> T {
    if falls_below(x, low) {
        low
    } else if exceeds(x, high) {
        high
    } else {
        x
    }
}

/// Limits `x` to the range from `low` to `high`: a value below `low` becomes
/// `low`, one above `high` becomes `high`, and any other is kept.
pub fn clamp<T: PartialOrd + Copy>(x: T, low: T, high: T) -> (r: T)
    requires
        obeys_order::<T>(),
        at_most(low, high),
    ensures
        r == clamp_spec(x, low, high),
{
    if x < low {
        low
    } else if x > high {
        high
    } else {
        x
    }
}

/// A clamped value is never below the lower bound and never above the upper
/// bound, in any mirrored order.
pub proof fn lemma_clamp_in_range<T: PartialOrd>(x: T, low: T, high: T)
    requires
        mirrored_order::<T>(),
        at_most(low, high),
    ensures
        not_outside(clamp_spec(x, low, high), low, high),
{
    lemma_bounds_in_range(low, high);
}

/// In a total order, a value that is not outside the bounds lies between
/// them.
pub proof fn lemma_not_outside_is_within<T: PartialOrd>(value: T, low: T, high: T)
    requires
        total_order::<T>(),
        not_outside(value, low, high),
    ensures
        within(value, low, high),
{
    assert(at_most(value, high) || exceeds(value, high));
    assert(at_most(value, low) || exceeds(value, low));
    assert(at_most(low, value) || exceeds(low, value));
    assert(falls_below(value, low) <==> exceeds(low, value));
    assert(falls_below(low, value) <==> exceeds(value, low));
}

/// A clamped value lies between the bounds in any total order.
pub proof fn lemma_clamp_within<T: PartialOrd>(x: T, low: T, high: T)
    requires
        total_order::<T>(),
        at_most(low, high),
    ensures
        within(clamp_spec(x, low, high), low, high),
{
    lemma_clamp_in_range(x, low, high);
    lemma_not_outside_is_within(clamp_spec(x, low, high), low, high);
}

/// Both bounds of a range in order are themselves not outside it, in any
/// mirrored order.
pub proof fn lemma_bounds_in_range<T: PartialOrd>(low: T, high: T)
    requires
        mirrored_order::<T>(),
        at_most(low, high),
    ensures
        not_outside(low, low, high),
        not_outside(high, low, high),
{
    assert(falls_below(low, low) <==> exceeds(low, low));
    assert(falls_below(high, high) <==> exceeds(high, high));
    assert(falls_below(high, low) <==> exceeds(low, high));
}

/// The order of `i64` is total, and over it a clamped value lies between
/// the bounds; a value between the bounds is kept.
pub proof fn lemma_clamp_in_range_i64(x: i64, low: i64, high: i64)
    requires
        low <= high,
    ensures
        total_order::<i64>(),
        low <= clamp_spec(x, low, high) <= high,
        low <= x <= high ==> clamp_spec(x, low, high) == x,
{
}

} // verus!

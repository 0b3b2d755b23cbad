pub mod garments;
pub mod items;

use vstd::prelude::*;

verus! {

/// Three dimensions in the order in which a document stores them.
pub type Dimensions = (i64, i64, i64);

/// `d` is in descending order (largest first).
pub open spec fn is_descending(d: Dimensions) -> bool {
    d.0 >= d.1 && d.1 >= d.2
}

/// `d` holds the three values of `given`, in some order.
pub open spec fn is_rearrangement(given: Seq<i64>, d: Dimensions) -> bool {
    let (a, b, c) = (given[0], given[1], given[2]);
    ||| d == (a, b, c)
    ||| d == (a, c, b)
    ||| d == (b, a, c)
    ||| d == (b, c, a)
    ||| d == (c, a, b)
    ||| d == (c, b, a)
}

/// Sorts three dimensions into descending order.
pub fn sort_dimensions_descending(dimensions: &[i64; 3]) -> (sorted: Dimensions)
    ensures
        is_descending(sorted),
        is_rearrangement(dimensions@, sorted),
{
    let mut low = dimensions[0];
    let mut mid = dimensions[1];
    let mut high = dimensions[2];
    if low > mid {
        let t = low;
        low = mid;
        mid = t;
    }
    if mid > high {
        let t = mid;
        mid = high;
        high = t;
    }
    if low > mid {
        let t = low;
        low = mid;
        mid = t;
    }
    (high, mid, low)
}

/// The descending arrangement of three values is unique: two descending
/// rearrangements of the same values are equal.
pub proof fn lemma_descending_rearrangement_unique(given: Seq<i64>, d: Dimensions, e: Dimensions)
    requires
        given.len() == 3,
        is_descending(d),
        is_rearrangement(given, d),
        is_descending(e),
        is_rearrangement(given, e),
    ensures
        d == e,
{
}

/// Stored dimensions do not depend on the order in which a client lists
/// them: whenever `other` lists the values of `given` in another order, a
/// descending arrangement of one is the descending arrangement of the other.
pub proof fn lemma_dimension_order_irrelevant(given: Seq<i64>, other: Seq<i64>, d: Dimensions, e: Dimensions)
    requires
        given.len() == 3,
        other.len() == 3,
        is_rearrangement(given, (other[0], other[1], other[2])),
        is_descending(d),
        is_rearrangement(given, d),
        is_descending(e),
        is_rearrangement(other, e),
    ensures
        d == e,
{
}

} // verus!

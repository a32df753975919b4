//! Expressions over buffers.
//!
//! What a launch computes is an expression of what its buffers held before. An
//! entry point is given a meaning once, by the position of its parameters in
//! the order the CUDA source declares them; the laws of a family say which
//! expression of its inputs a launch leaves in its results.

use vstd::prelude::*;

verus! {

/// What a buffer holds, for buffers named by `A` and operations `O`.
#[verifier::reject_recursive_types(A)]
#[verifier::reject_recursive_types(O)]
pub enum Value<A, O> {
    /// What the caller put into the buffer, or handed over by value.
    Given(A),
    /// Nothing that is known.
    Unknown,
    /// An operation, what it is applied to, and its extents.
    Of { op: O, inputs: Seq<Value<A, O>>, extents: Seq<int> },
}

/// An operation applied to inputs over extents.
pub open spec fn of<A, O>(op: O, inputs: Seq<Value<A, O>>, extents: Seq<int>) -> Value<A, O> {
    Value::Of { op, inputs, extents }
}

/// Every buffer as the caller left it.
pub open spec fn given<A, O>() -> Map<A, Value<A, O>> {
    Map::new(|a: A| true, |a: A| Value::Given(a))
}

/// `blocks` blocks of `per` cover `n`, the last of them at least in part.
pub open spec fn cover(blocks: int, per: int, n: int) -> bool {
    n <= blocks * per < n + per
}

} // verus!

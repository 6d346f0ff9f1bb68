use vstd::prelude::*;

verus! {

/// The numeric element type of the engine.
///
/// The engine never inspects scalar values: it only combines them through
/// these operations and routes them between pool slots, dense matrices and
/// the loss history. Implementations supply the actual number type (a
/// float, a fixed-point integer, an interval, ...). None of the methods
/// carries a postcondition, so nothing in the library's proofs depends on
/// how an implementation behaves; every claim the library makes about
/// scalar values is a claim about where a value came from, not what it is.
pub trait Scalar: Copy {
    /// The sum of the two operands.
    fn plus(&self, other: &Self) -> Self;

    /// The first operand minus the second.
    fn minus(&self, other: &Self) -> Self;

    /// The product of the two operands.
    fn times(&self, other: &Self) -> Self;

    /// This value divided by a positive count; used to average a batch.
    fn div_count(&self, n: usize) -> Self
        requires
            n >= 1,
    ;

    /// Strict order test: `self < other`.
    fn lt(&self, other: &Self) -> bool;

    /// The scalar `num / den`, for building constants such as the default
    /// learning rate.
    fn ratio(num: usize, den: usize) -> Self
        requires
            den >= 1,
    ;
}

} // verus!

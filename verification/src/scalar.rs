//! The numbers a simulation computes with.
//!
//! The stepper is written once, for every number type that offers the
//! operations of [`Scalar`]. It asks nothing of how an operation is carried
//! out, and an operation promises nothing here: what it promises is up to
//! the type that implements it. What the stepper returns is stated over the
//! operations themselves, by naming the result that each has for given
//! arguments (`sum`, `product`, `below` and the others).

use vstd::prelude::*;

verus! {

/// A number type: the four operations of arithmetic, negation, square
/// root, power, maximum, an order and an equality. The operations are
/// expected to return for every argument; none is expected to be exact.
pub trait Scalar: Copy {
    /// The whole number `value`.
    fn from_int(value: i32) -> Self;

    /// `self + rhs`.
    fn plus(self, rhs: Self) -> Self;

    /// `self - rhs`.
    fn minus(self, rhs: Self) -> Self;

    /// `self * rhs`.
    fn times(self, rhs: Self) -> Self;

    /// `self / rhs`.
    fn over(self, rhs: Self) -> Self;

    /// `-self`.
    fn negated(self) -> Self;

    /// The square root of `self`.
    fn root(self) -> Self;

    /// `self` raised to `exponent`.
    fn power(self, exponent: Self) -> Self;

    /// The larger of `self` and `other`.
    fn larger(self, other: Self) -> Self;

    /// `self < rhs`.
    fn less(self, rhs: Self) -> bool;

    /// `self == rhs`.
    fn equals(self, rhs: Self) -> bool;
}

/// Every operation of `S` is a function of its arguments: its contract
/// allows one result for given arguments.
///
/// Where this holds, each function of the stepper returns what the spec
/// function of the same subject says, and its contract says so. Where an
/// operation may answer one question in two ways, the stepper still makes
/// the same calls in the same order, but no formula can say what comes out.
pub open spec fn functional<S: Scalar>() -> bool {
    &&& forall|n: i32, p: S, q: S| #[trigger]
        call_ensures(S::from_int, (n,), p) && #[trigger] call_ensures(S::from_int, (n,), q) ==> p
            == q
    &&& forall|a: S, b: S, p: S, q: S| #[trigger]
        call_ensures(S::plus, (a, b), p) && #[trigger] call_ensures(S::plus, (a, b), q) ==> p == q
    &&& forall|a: S, b: S, p: S, q: S| #[trigger]
        call_ensures(S::minus, (a, b), p) && #[trigger] call_ensures(S::minus, (a, b), q) ==> p
            == q
    &&& forall|a: S, b: S, p: S, q: S| #[trigger]
        call_ensures(S::times, (a, b), p) && #[trigger] call_ensures(S::times, (a, b), q) ==> p
            == q
    &&& forall|a: S, b: S, p: S, q: S| #[trigger]
        call_ensures(S::over, (a, b), p) && #[trigger] call_ensures(S::over, (a, b), q) ==> p == q
    &&& forall|a: S, p: S, q: S| #[trigger]
        call_ensures(S::negated, (a,), p) && #[trigger] call_ensures(S::negated, (a,), q) ==> p
            == q
    &&& forall|a: S, p: S, q: S| #[trigger]
        call_ensures(S::root, (a,), p) && #[trigger] call_ensures(S::root, (a,), q) ==> p == q
    &&& forall|a: S, b: S, p: S, q: S| #[trigger]
        call_ensures(S::power, (a, b), p) && #[trigger] call_ensures(S::power, (a, b), q) ==> p
            == q
    &&& forall|a: S, b: S, p: S, q: S| #[trigger]
        call_ensures(S::larger, (a, b), p) && #[trigger] call_ensures(S::larger, (a, b), q) ==> p
            == q
    &&& forall|a: S, b: S, p: bool, q: bool| #[trigger]
        call_ensures(S::less, (a, b), p) && #[trigger] call_ensures(S::less, (a, b), q) ==> p == q
    &&& forall|a: S, b: S, p: bool, q: bool| #[trigger]
        call_ensures(S::equals, (a, b), p) && #[trigger] call_ensures(S::equals, (a, b), q) ==> p
            == q
}

/// The whole number `n` in `S`: what `from_int` returns for it.
pub open spec fn number<S: Scalar>(n: i32) -> S {
    choose|r: S| call_ensures(S::from_int, (n,), r)
}

/// `a + b` in `S`: what `plus` returns.
pub open spec fn sum<S: Scalar>(a: S, b: S) -> S {
    choose|r: S| call_ensures(S::plus, (a, b), r)
}

/// `a - b` in `S`: what `minus` returns.
pub open spec fn difference<S: Scalar>(a: S, b: S) -> S {
    choose|r: S| call_ensures(S::minus, (a, b), r)
}

/// `a * b` in `S`: what `times` returns.
pub open spec fn product<S: Scalar>(a: S, b: S) -> S {
    choose|r: S| call_ensures(S::times, (a, b), r)
}

/// `a / b` in `S`: what `over` returns.
pub open spec fn quotient<S: Scalar>(a: S, b: S) -> S {
    choose|r: S| call_ensures(S::over, (a, b), r)
}

/// `-a` in `S`: what `negated` returns.
pub open spec fn negation<S: Scalar>(a: S) -> S {
    choose|r: S| call_ensures(S::negated, (a,), r)
}

/// The square root of `a` in `S`: what `root` returns.
pub open spec fn square_root<S: Scalar>(a: S) -> S {
    choose|r: S| call_ensures(S::root, (a,), r)
}

/// `a` raised to `b` in `S`: what `power` returns.
pub open spec fn raised<S: Scalar>(a: S, b: S) -> S {
    choose|r: S| call_ensures(S::power, (a, b), r)
}

/// The larger of `a` and `b` in `S`: what `larger` returns.
pub open spec fn maximum<S: Scalar>(a: S, b: S) -> S {
    choose|r: S| call_ensures(S::larger, (a, b), r)
}

/// `a < b` in `S`: what `less` returns.
pub open spec fn below<S: Scalar>(a: S, b: S) -> bool {
    choose|r: bool| call_ensures(S::less, (a, b), r)
}

/// `a == b` in `S`: what `equals` returns.
pub open spec fn alike<S: Scalar>(a: S, b: S) -> bool {
    choose|r: bool| call_ensures(S::equals, (a, b), r)
}

} // verus!

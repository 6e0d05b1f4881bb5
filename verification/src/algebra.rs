//! The arithmetic that contact resolution is written against.
//!
//! The traits here carry no contract on what an operation returns: an
//! implementation is free to round, to saturate or to work exactly. What the
//! library states about a result is stated over the spec functions below,
//! each of which names the value that one operation returns on given
//! arguments. Such a name describes a call only where the operation is
//! single valued, which is what [`deterministic`] says.
use vstd::prelude::*;

verus! {

/// A number: a length, a mass, a speed.
pub trait Scalar: Copy + Sized {
    /// The additive identity.
    fn zero() -> Self;

    /// The multiplicative identity.
    fn one() -> Self;

    /// The number that stands for `numerator / denominator`.
    fn ratio(numerator: u32, denominator: u32) -> Self
        requires
            denominator != 0,
    ;

    fn plus(self, rhs: Self) -> Self;

    fn minus(self, rhs: Self) -> Self;

    fn times(self, rhs: Self) -> Self;

    /// Division. The library divides only by a number on which `is_zero` has
    /// just answered `false`.
    fn over(self, rhs: Self) -> Self
        requires
            call_ensures(Self::is_zero, (rhs,), false),
    ;

    fn negated(self) -> Self;

    fn is_zero(self) -> bool;

    /// Whether `self` is strictly greater than `rhs`.
    fn exceeds(self, rhs: Self) -> bool;
}

/// A displacement or a linear velocity.
pub trait LinearVector: Copy + Sized {
    type Scalar: Scalar;

    fn zero() -> Self;

    fn plus(self, rhs: Self) -> Self;

    fn minus(self, rhs: Self) -> Self;

    /// The vector stretched by the factor `by`.
    fn scaled(self, by: Self::Scalar) -> Self;

    fn dot(self, rhs: Self) -> Self::Scalar;
}

/// A position in space.
pub trait Point: Copy + Sized {
    type Scalar: Scalar;

    type Vector: LinearVector<Scalar = Self::Scalar>;

    /// The point reached from `self` by moving along `by`.
    fn translated(self, by: Self::Vector) -> Self;

    /// The vector that leads from `from` to `self`.
    fn displacement(self, from: Self) -> Self::Vector;
}

/// An angular quantity: a number in the plane, a vector in space. The two cross
/// products let one algorithm serve both.
pub trait Angular: Copy + Sized {
    type Vector: LinearVector;

    fn zero() -> Self;

    fn plus(self, rhs: Self) -> Self;

    fn minus(self, rhs: Self) -> Self;

    /// The linear velocity that the angular velocity `self` gives to a point at
    /// the end of `lever`.
    fn cross(self, lever: Self::Vector) -> Self::Vector;

    /// The cross product of `lever` with `linear`.
    fn moment(lever: Self::Vector, linear: Self::Vector) -> Self;
}

/// Resistance to angular acceleration, in the body's own frame or in the
/// world's.
pub trait Inertia: Copy + Sized {
    type Orientation: Copy;

    type Angular: Angular;

    /// The same inertia seen from the world, for a body turned by
    /// `orientation`.
    fn tensor(self, orientation: Self::Orientation) -> Self;

    fn invert(self) -> Self;

    /// The inertia applied to an angular quantity.
    fn apply(self, to: Self::Angular) -> Self::Angular;
}

/// An operation without arguments returns one value only.
pub open spec fn constant<R, F: Fn() -> R>(f: F) -> bool {
    forall|r1: R, r2: R|
        #![trigger call_ensures(f, (), r1), call_ensures(f, (), r2)]
        call_ensures(f, (), r1) && call_ensures(f, (), r2) ==> r1 == r2
}

/// An operation of one argument returns one value only on each argument.
pub open spec fn function_of_one<A, R, F: Fn(A) -> R>(f: F) -> bool {
    forall|a: A, r1: R, r2: R|
        #![trigger call_ensures(f, (a,), r1), call_ensures(f, (a,), r2)]
        call_ensures(f, (a,), r1) && call_ensures(f, (a,), r2) ==> r1 == r2
}

/// An operation of two arguments returns one value only on each pair.
pub open spec fn function_of_two<A, B, R, F: Fn(A, B) -> R>(f: F) -> bool {
    forall|a: A, b: B, r1: R, r2: R|
        #![trigger call_ensures(f, (a, b), r1), call_ensures(f, (a, b), r2)]
        call_ensures(f, (a, b), r1) && call_ensures(f, (a, b), r2) ==> r1 == r2
}

pub open spec fn scalar_deterministic<S: Scalar>() -> bool {
    &&& constant(S::zero)
    &&& constant(S::one)
    &&& function_of_two(S::ratio)
    &&& function_of_two(S::plus)
    &&& function_of_two(S::minus)
    &&& function_of_two(S::times)
    &&& function_of_two(S::over)
    &&& function_of_one(S::negated)
    &&& function_of_one(S::is_zero)
    &&& function_of_two(S::exceeds)
}

pub open spec fn vector_deterministic<V: LinearVector>() -> bool {
    &&& scalar_deterministic::<V::Scalar>()
    &&& constant(V::zero)
    &&& function_of_two(V::plus)
    &&& function_of_two(V::minus)
    &&& function_of_two(V::scaled)
    &&& function_of_two(V::dot)
}

pub open spec fn point_deterministic<P: Point>() -> bool {
    &&& vector_deterministic::<P::Vector>()
    &&& function_of_two(P::translated)
    &&& function_of_two(P::displacement)
}

pub open spec fn angular_deterministic<A: Angular>() -> bool {
    &&& constant(A::zero)
    &&& function_of_two(A::plus)
    &&& function_of_two(A::minus)
    &&& function_of_two(A::cross)
    &&& function_of_two(A::moment)
}

pub open spec fn inertia_deterministic<I: Inertia>() -> bool {
    &&& function_of_two(I::tensor)
    &&& function_of_one(I::invert)
    &&& function_of_two(I::apply)
}

/// Every operation that contact resolution calls is single valued: the same
/// arguments give the same result. Under this condition the spec functions of
/// this module describe what the operations return.
pub open spec fn deterministic<P: Point, I: Inertia>() -> bool {
    &&& point_deterministic::<P>()
    &&& angular_deterministic::<I::Angular>()
    &&& inertia_deterministic::<I>()
}

pub open spec fn zero<S: Scalar>() -> S {
    choose|r: S| call_ensures(S::zero, (), r)
}

pub open spec fn one<S: Scalar>() -> S {
    choose|r: S| call_ensures(S::one, (), r)
}

pub open spec fn ratio<S: Scalar>(numerator: u32, denominator: u32) -> S {
    choose|r: S| call_ensures(S::ratio, (numerator, denominator), r)
}

pub open spec fn sum<S: Scalar>(a: S, b: S) -> S {
    choose|r: S| call_ensures(S::plus, (a, b), r)
}

pub open spec fn difference<S: Scalar>(a: S, b: S) -> S {
    choose|r: S| call_ensures(S::minus, (a, b), r)
}

pub open spec fn product<S: Scalar>(a: S, b: S) -> S {
    choose|r: S| call_ensures(S::times, (a, b), r)
}

pub open spec fn quotient<S: Scalar>(a: S, b: S) -> S {
    choose|r: S| call_ensures(S::over, (a, b), r)
}

pub open spec fn negation<S: Scalar>(a: S) -> S {
    choose|r: S| call_ensures(S::negated, (a,), r)
}

pub open spec fn is_zero<S: Scalar>(a: S) -> bool {
    call_ensures(S::is_zero, (a,), true)
}

pub open spec fn exceeds<S: Scalar>(a: S, b: S) -> bool {
    call_ensures(S::exceeds, (a, b), true)
}

/// The smaller of two numbers, and the first where neither exceeds the other.
pub open spec fn minimum<S: Scalar>(a: S, b: S) -> S {
    if exceeds(a, b) {
        b
    } else {
        a
    }
}

pub open spec fn vector_zero<V: LinearVector>() -> V {
    choose|r: V| call_ensures(V::zero, (), r)
}

pub open spec fn vector_sum<V: LinearVector>(a: V, b: V) -> V {
    choose|r: V| call_ensures(V::plus, (a, b), r)
}

pub open spec fn vector_difference<V: LinearVector>(a: V, b: V) -> V {
    choose|r: V| call_ensures(V::minus, (a, b), r)
}

pub open spec fn scaling<V: LinearVector>(v: V, by: V::Scalar) -> V {
    choose|r: V| call_ensures(V::scaled, (v, by), r)
}

pub open spec fn dot<V: LinearVector>(a: V, b: V) -> V::Scalar {
    choose|r: V::Scalar| call_ensures(V::dot, (a, b), r)
}

pub open spec fn translation<P: Point>(p: P, by: P::Vector) -> P {
    choose|r: P| call_ensures(P::translated, (p, by), r)
}

pub open spec fn displacement<P: Point>(p: P, from: P) -> P::Vector {
    choose|r: P::Vector| call_ensures(P::displacement, (p, from), r)
}

pub open spec fn angular_zero<A: Angular>() -> A {
    choose|r: A| call_ensures(A::zero, (), r)
}

pub open spec fn angular_sum<A: Angular>(a: A, b: A) -> A {
    choose|r: A| call_ensures(A::plus, (a, b), r)
}

pub open spec fn angular_difference<A: Angular>(a: A, b: A) -> A {
    choose|r: A| call_ensures(A::minus, (a, b), r)
}

pub open spec fn cross<A: Angular>(angular: A, lever: A::Vector) -> A::Vector {
    choose|r: A::Vector| call_ensures(A::cross, (angular, lever), r)
}

pub open spec fn moment<A: Angular>(lever: A::Vector, linear: A::Vector) -> A {
    choose|r: A| call_ensures(A::moment, (lever, linear), r)
}

pub open spec fn world_tensor<I: Inertia>(inertia: I, orientation: I::Orientation) -> I {
    choose|r: I| call_ensures(I::tensor, (inertia, orientation), r)
}

pub open spec fn inverse<I: Inertia>(inertia: I) -> I {
    choose|r: I| call_ensures(I::invert, (inertia,), r)
}

pub open spec fn response<I: Inertia>(inertia: I, to: I::Angular) -> I::Angular {
    choose|r: I::Angular| call_ensures(I::apply, (inertia, to), r)
}

/// The smaller of two numbers, and the first where neither exceeds the other.
pub fn smaller<S: Scalar>(a: S, b: S) -> (r: S)
    ensures
        r == a || r == b,
        function_of_two(S::exceeds) ==> r == minimum(a, b),
{
    if a.exceeds(b) {
        b
    } else {
        a
    }
}

} // verus!

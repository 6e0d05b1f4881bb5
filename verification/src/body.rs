//! What a body brings to a contact: its pose, its velocity, its mass and its
//! material; and the contact itself.
use crate::algebra::{
    angular_deterministic, angular_zero, inertia_deterministic, inverse, is_zero, one, quotient,
    scalar_deterministic, vector_deterministic, vector_zero, world_tensor, zero, Angular, Inertia,
    LinearVector, Point, Scalar,
};
use vstd::prelude::*;

verus! {

/// A value that a body takes at the start of the next step of the simulation.
#[derive(Clone, Copy, Debug, PartialEq)]
pub struct NextFrame<T> {
    pub value: T,
}

/// Where a body is and how it is turned.
#[derive(Clone, Copy, Debug, PartialEq)]
pub struct BodyPose<P, R> {
    pub position: P,
    pub rotation: R,
}

impl<P: Copy, R: Copy> BodyPose<P, R> {
    pub fn new(position: P, rotation: R) -> (pose: Self)
        ensures
            pose == (BodyPose { position, rotation }),
    {
        BodyPose { position, rotation }
    }

    /// The body's centre of mass, in world coordinates.
    pub fn position(&self) -> (position: P)
        ensures
            position == self.position,
    {
        self.position
    }

    pub fn rotation(&self) -> (rotation: R)
        ensures
            rotation == self.rotation,
    {
        self.rotation
    }
}

/// How a body moves: along a line and about its centre of mass.
#[derive(Clone, Copy, Debug, PartialEq)]
pub struct Velocity<L, A> {
    pub linear: L,
    pub angular: A,
}

impl<L: Copy, A: Copy> Velocity<L, A> {
    pub fn new(linear: L, angular: A) -> (velocity: Self)
        ensures
            velocity == (Velocity { linear, angular }),
    {
        Velocity { linear, angular }
    }

    pub fn linear(&self) -> (linear: L)
        ensures
            linear == self.linear,
    {
        self.linear
    }

    pub fn angular(&self) -> (angular: A)
        ensures
            angular == self.angular,
    {
        self.angular
    }
}

/// The velocity of a body at rest.
pub open spec fn at_rest<L: LinearVector, A: Angular>() -> Velocity<L, A> {
    Velocity { linear: vector_zero(), angular: angular_zero() }
}

impl<L: LinearVector, A: Angular> Default for Velocity<L, A> {
    /// A body at rest.
    fn default() -> (velocity: Self)
        ensures
            vector_deterministic::<L>() && angular_deterministic::<A>() ==> velocity == at_rest::<
                L,
                A,
            >(),
    {
        Velocity { linear: L::zero(), angular: A::zero() }
    }
}

/// The surface of a body.
#[derive(Clone, Copy, Debug, PartialEq)]
pub struct Material<S> {
    pub density: S,
    /// How elastic a collision is: zero for none of the closing speed given
    /// back, one for all of it.
    pub restitution: S,
}

impl<S: Copy> Material<S> {
    pub fn new(density: S, restitution: S) -> (material: Self)
        ensures
            material == (Material { density, restitution }),
    {
        Material { density, restitution }
    }

    pub fn density(&self) -> (density: S)
        ensures
            density == self.density,
    {
        self.density
    }

    pub fn restitution(&self) -> (restitution: S)
        ensures
            restitution == self.restitution,
    {
        self.restitution
    }
}

/// The mass of a body and its inertia in the body's own frame, each with its
/// inverse. A body that cannot be moved has inverse mass zero.
#[derive(Clone, Copy, Debug, PartialEq)]
pub struct Mass<S, I> {
    pub mass: S,
    pub inverse_mass: S,
    pub inertia: I,
    pub inverse_inertia: I,
}

/// The inverse of a mass. A mass of zero stands for a body that cannot be
/// moved, and its inverse is zero too.
pub open spec fn inverse_of_mass<S: Scalar>(mass: S) -> S {
    if is_zero(mass) {
        zero()
    } else {
        quotient(one(), mass)
    }
}

impl<S: Scalar, I: Inertia> Mass<S, I> {
    /// A mass with its inertia. Nothing is divided by zero: a mass of zero
    /// gets the inverse zero.
    pub fn new_with_inertia(mass: S, inertia: I) -> (made: Self)
        ensures
            made.mass == mass,
            made.inertia == inertia,
            scalar_deterministic::<S>() ==> made.inverse_mass == inverse_of_mass(mass),
            inertia_deterministic::<I>() ==> made.inverse_inertia == inverse(inertia),
    {
        let inverse_mass = if mass.is_zero() {
            S::zero()
        } else {
            S::one().over(mass)
        };
        Mass { mass, inverse_mass, inertia, inverse_inertia: inertia.invert() }
    }

    pub fn mass(&self) -> (mass: S)
        ensures
            mass == self.mass,
    {
        self.mass
    }

    pub fn inverse_mass(&self) -> (inverse_mass: S)
        ensures
            inverse_mass == self.inverse_mass,
    {
        self.inverse_mass
    }

    /// The inverse inertia seen from the world, for a body turned by
    /// `orientation`.
    pub fn world_inverse_inertia(&self, orientation: &I::Orientation) -> (tensor: I)
        ensures
            inertia_deterministic::<I>() ==> tensor == world_tensor(
                self.inverse_inertia,
                *orientation,
            ),
    {
        self.inverse_inertia.tensor(*orientation)
    }
}

/// Where two bodies touch. The normal is a unit vector that points from the
/// first body to the second; neither is checked here.
#[derive(Clone, Copy, Debug, PartialEq)]
pub struct Contact<P: Point> {
    pub normal: P::Vector,
    pub penetration_depth: P::Scalar,
    pub contact_point: P,
}

impl<P: Point> Contact<P> {
    pub fn new(normal: P::Vector, penetration_depth: P::Scalar, contact_point: P) -> (contact:
        Self)
        ensures
            contact == (Contact { normal, penetration_depth, contact_point }),
    {
        Contact { normal, penetration_depth, contact_point }
    }
}

} // verus!

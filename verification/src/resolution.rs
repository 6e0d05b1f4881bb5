//! Resolution of one contact between two bodies.
//!
//! [`resolve_contact`] moves the bodies apart by a share of their overlap and
//! exchanges an impulse along the contact normal. It changes nothing itself:
//! it returns one [`SingleChangeSet`] for each body, which the caller applies
//! when it sees fit.
use crate::algebra::{
    angular_difference, angular_sum, cross, deterministic, difference, displacement, dot, exceeds,
    is_zero, minimum, moment, negation, one, point_deterministic, product, quotient, ratio,
    response, scalar_deterministic, scaling, smaller, sum, translation, vector_difference,
    vector_sum, world_tensor, zero, Angular, Inertia, LinearVector, Point, Scalar,
};
use crate::body::{at_rest, BodyPose, Contact, Mass, Material, NextFrame, Velocity};
use vstd::prelude::*;

verus! {

/// How much of an overlap one resolution takes away.
#[derive(Clone, Copy, Debug, PartialEq)]
pub struct CorrectionSettings<S> {
    /// The fraction of the overlap that is corrected in one call.
    pub percent: S,
    /// The overlap up to which nothing is corrected.
    pub slop: S,
}

/// A fifth of the overlap beyond a slop of one hundredth.
pub open spec fn standard_settings<S: Scalar>() -> CorrectionSettings<S> {
    CorrectionSettings { percent: ratio(1, 5), slop: ratio(1, 100) }
}

impl<S: Scalar> CorrectionSettings<S> {
    pub fn new(percent: S, slop: S) -> (settings: Self)
        ensures
            settings == (CorrectionSettings { percent, slop }),
    {
        CorrectionSettings { percent, slop }
    }

    /// A fifth of the overlap beyond a slop of one hundredth.
    pub fn standard() -> (settings: Self)
        ensures
            scalar_deterministic::<S>() ==> settings == standard_settings::<S>(),
    {
        CorrectionSettings { percent: S::ratio(1, 5), slop: S::ratio(1, 100) }
    }
}

/// The changes that resolving a contact asks of one body. A field is `None`
/// where nothing has to change.
#[derive(Debug, PartialEq)]
pub struct SingleChangeSet<P: Point, R, A> {
    pub pose: Option<BodyPose<P, R>>,
    pub velocity: Option<NextFrame<Velocity<P::Vector, A>>>,
}

impl<P: Point, R, A> Default for SingleChangeSet<P, R, A> {
    /// The change set that changes nothing.
    fn default() -> (set: Self)
        ensures
            set.pose is None,
            set.velocity is None,
    {
        SingleChangeSet { pose: None, velocity: None }
    }
}

impl<P: Point, R, A> SingleChangeSet<P, R, A> {
    fn add_pose(&mut self, pose: Option<BodyPose<P, R>>)
        ensures
            final(self).pose == pose,
            final(self).velocity == old(self).velocity,
    {
        self.pose = pose;
    }

    fn add_velocity(&mut self, velocity: Option<NextFrame<Velocity<P::Vector, A>>>)
        ensures
            final(self).velocity == velocity,
            final(self).pose == old(self).pose,
    {
        self.velocity = velocity;
    }

    /// Writes the changes into the slots given. A slot is overwritten where
    /// the change set holds a value for it, and left as it is where it does
    /// not; a change for which no slot is given is dropped.
    pub fn apply(
        self,
        pose: Option<&mut NextFrame<BodyPose<P, R>>>,
        velocity: Option<&mut NextFrame<Velocity<P::Vector, A>>>,
    )
        ensures
            match (pose, self.pose) {
                (Some(slot), Some(update)) => *final(slot) == (NextFrame { value: update }),
                (Some(slot), None) => *final(slot) == *slot,
                (None, _) => true,
            },
            match (velocity, self.velocity) {
                (Some(slot), Some(update)) => *final(slot) == update,
                (Some(slot), None) => *final(slot) == *slot,
                (None, _) => true,
            },
    {
        if let Some(slot) = pose {
            if let Some(update) = self.pose {
                slot.value = update;
            }
        }
        if let Some(slot) = velocity {
            if let Some(update) = self.velocity {
                *slot = update;
            }
        }
    }
}

/// What resolution reads of one body. A body without a velocity is one whose
/// velocity is not simulated: it is taken to be at rest and gets no new
/// velocity.
pub struct ResolveData<'a, P: Point, R, I, A> {
    /// Velocity for the next frame.
    pub velocity: Option<&'a NextFrame<Velocity<P::Vector, A>>>,
    /// Pose for the next frame.
    pub pose: &'a BodyPose<P, R>,
    pub mass: &'a Mass<P::Scalar, I>,
    pub material: &'a Material<P::Scalar>,
}

/// The length of the correction for an overlap of `penetration_depth` between
/// bodies whose inverse masses add up to `total_inverse_mass`: the share
/// `settings.percent` of the overlap beyond the slop, for each unit of inverse
/// mass. It is zero up to the slop, and zero where neither body can be moved.
pub open spec fn correction_magnitude<S: Scalar>(
    settings: CorrectionSettings<S>,
    penetration_depth: S,
    total_inverse_mass: S,
) -> S {
    if exceeds(penetration_depth, settings.slop) && !is_zero(total_inverse_mass) {
        product(
            quotient(difference(penetration_depth, settings.slop), total_inverse_mass),
            settings.percent,
        )
    } else {
        zero()
    }
}

/// The correction for a contact: along the normal, with the length of
/// [`correction_magnitude`].
pub open spec fn correction<P: Point>(
    settings: CorrectionSettings<P::Scalar>,
    contact: Contact<P>,
    total_inverse_mass: P::Scalar,
) -> P::Vector {
    scaling(
        contact.normal,
        correction_magnitude(settings, contact.penetration_depth, total_inverse_mass),
    )
}

/// The pose moved along `by`; the rotation stays.
pub open spec fn moved<P: Point, R>(pose: BodyPose<P, R>, by: P::Vector) -> BodyPose<P, R> {
    BodyPose { position: translation(pose.position, by), rotation: pose.rotation }
}

/// The poses after positional correction: the first body moves against the
/// normal and the second along it, each by the correction times its own
/// inverse mass.
pub open spec fn corrected_poses<P: Point, R>(
    settings: CorrectionSettings<P::Scalar>,
    contact: Contact<P>,
    a_pose: BodyPose<P, R>,
    b_pose: BodyPose<P, R>,
    a_inverse_mass: P::Scalar,
    b_inverse_mass: P::Scalar,
) -> (BodyPose<P, R>, BodyPose<P, R>) {
    let by = correction(settings, contact, sum(a_inverse_mass, b_inverse_mass));
    (
        moved(a_pose, scaling(by, negation(a_inverse_mass))),
        moved(b_pose, scaling(by, b_inverse_mass)),
    )
}

/// Computes the length of the correction; see [`correction_magnitude`].
/// Nothing is divided by zero.
pub fn magnitude_of_correction<S: Scalar>(
    settings: &CorrectionSettings<S>,
    penetration_depth: S,
    total_inverse_mass: S,
) -> (magnitude: S)
    ensures
        scalar_deterministic::<S>() ==> magnitude == correction_magnitude(
            *settings,
            penetration_depth,
            total_inverse_mass,
        ),
{
    if penetration_depth.exceeds(settings.slop) && !total_inverse_mass.is_zero() {
        penetration_depth.minus(settings.slop).over(total_inverse_mass).times(settings.percent)
    } else {
        S::zero()
    }
}

fn new_pose<P: Point, R: Copy>(next_frame: &BodyPose<P, R>, correction: P::Vector) -> (pose:
    BodyPose<P, R>)
    ensures
        pose.rotation == next_frame.rotation,
        point_deterministic::<P>() ==> pose == moved(*next_frame, correction),
{
    BodyPose::new(next_frame.position().translated(correction), next_frame.rotation())
}

/// Positional correction for two bodies in contact. Only a share of the
/// overlap is taken away in one call, and none of an overlap within the slop,
/// so that bodies at rest on each other do not jitter. The rotations stay as
/// they are. Nothing is divided by zero: where the inverse masses add up to
/// zero the correction is zero.
pub fn positional_correction<P: Point, R: Copy>(
    settings: &CorrectionSettings<P::Scalar>,
    contact: &Contact<P>,
    a_position: &BodyPose<P, R>,
    b_position: &BodyPose<P, R>,
    a_inverse_mass: P::Scalar,
    b_inverse_mass: P::Scalar,
) -> (poses: (Option<BodyPose<P, R>>, Option<BodyPose<P, R>>))
    ensures
        poses.0 is Some,
        poses.1 is Some,
        poses.0->0.rotation == a_position.rotation,
        poses.1->0.rotation == b_position.rotation,
        point_deterministic::<P>() ==> (poses.0->0, poses.1->0) == corrected_poses(
            *settings,
            *contact,
            *a_position,
            *b_position,
            a_inverse_mass,
            b_inverse_mass,
        ),
{
    let total_inverse_mass = a_inverse_mass.plus(b_inverse_mass);
    let correction_magnitude = magnitude_of_correction(
        settings,
        contact.penetration_depth,
        total_inverse_mass,
    );
    let correction = contact.normal.scaled(correction_magnitude);
    let a_position_new = new_pose(a_position, correction.scaled(a_inverse_mass.negated()));
    let b_position_new = new_pose(b_position, correction.scaled(b_inverse_mass));
    (Some(a_position_new), Some(b_position_new))
}

impl<'a, P, R, I, A> ResolveData<'a, P, R, I, A> where
    P: Point,
    R: Copy,
    A: Angular<Vector = P::Vector>,
    I: Inertia<Orientation = R, Angular = A>,
 {
    /// The velocity that resolution reckons with: the one given, or rest.
    pub open spec fn current_velocity(&self) -> Velocity<P::Vector, A> {
        match self.velocity {
            Some(next) => next.value,
            None => at_rest(),
        }
    }

    /// The vector from the body's centre of mass to the contact point.
    pub open spec fn lever(&self, contact: Contact<P>) -> P::Vector {
        displacement(contact.contact_point, self.pose.position)
    }

    /// The velocity of the point of the body that lies at the contact point.
    pub open spec fn contact_velocity(&self, contact: Contact<P>) -> P::Vector {
        vector_sum(
            self.current_velocity().linear,
            cross(self.current_velocity().angular, self.lever(contact)),
        )
    }

    /// The inverse inertia of the body as the world sees it.
    pub open spec fn world_inverse_inertia(&self) -> I {
        world_tensor(self.mass.inverse_inertia, self.pose.rotation)
    }

    /// The change of angular velocity that the impulse `push` causes when it
    /// acts on the body at the contact point: the world inverse inertia
    /// applied to the moment of `push` about the centre of mass.
    pub open spec fn angular_change(&self, contact: Contact<P>, push: P::Vector) -> A {
        response(self.world_inverse_inertia(), moment(self.lever(contact), push))
    }

    /// What the body's freedom to turn adds to the inverse mass that the
    /// contact meets along its normal.
    pub open spec fn angular_term(&self, contact: Contact<P>) -> P::Scalar {
        dot(contact.normal, cross(self.angular_change(contact, contact.normal), self.lever(contact)))
    }
}

/// Neither body can be moved: the inverse masses add up to zero, or each of
/// them is zero.
pub open spec fn immovable<S: Scalar>(a_inverse_mass: S, b_inverse_mass: S) -> bool {
    is_zero(sum(a_inverse_mass, b_inverse_mass)) || (is_zero(a_inverse_mass) && is_zero(
        b_inverse_mass,
    ))
}

/// The speed at which the second body leaves the first along the normal, at
/// the contact point. It is negative while the bodies close in.
pub open spec fn velocity_along_normal<P, R, I, A>(
    contact: Contact<P>,
    a: ResolveData<'_, P, R, I, A>,
    b: ResolveData<'_, P, R, I, A>,
) -> P::Scalar where
    P: Point,
    R: Copy,
    A: Angular<Vector = P::Vector>,
    I: Inertia<Orientation = R, Angular = A>,
 {
    dot(contact.normal, vector_difference(b.contact_velocity(contact), a.contact_velocity(contact)))
}

/// The bodies already move apart along the normal.
pub open spec fn separating<P, R, I, A>(
    contact: Contact<P>,
    a: ResolveData<'_, P, R, I, A>,
    b: ResolveData<'_, P, R, I, A>,
) -> bool where
    P: Point,
    R: Copy,
    A: Angular<Vector = P::Vector>,
    I: Inertia<Orientation = R, Angular = A>,
 {
    exceeds(velocity_along_normal(contact, a, b), zero())
}

/// The inverse of the mass that the contact meets along its normal: both
/// inverse masses and both angular terms.
pub open spec fn effective_inverse_mass<P, R, I, A>(
    contact: Contact<P>,
    a: ResolveData<'_, P, R, I, A>,
    b: ResolveData<'_, P, R, I, A>,
) -> P::Scalar where
    P: Point,
    R: Copy,
    A: Angular<Vector = P::Vector>,
    I: Inertia<Orientation = R, Angular = A>,
 {
    sum(
        sum(sum(a.mass.inverse_mass, b.mass.inverse_mass), a.angular_term(contact)),
        b.angular_term(contact),
    )
}

/// The size of the impulse: `-(1 + e)` times the velocity along the normal,
/// over the effective inverse mass, where `e` is the smaller of the two
/// restitutions.
pub open spec fn impulse_magnitude<P, R, I, A>(
    contact: Contact<P>,
    a: ResolveData<'_, P, R, I, A>,
    b: ResolveData<'_, P, R, I, A>,
) -> P::Scalar where
    P: Point,
    R: Copy,
    A: Angular<Vector = P::Vector>,
    I: Inertia<Orientation = R, Angular = A>,
 {
    quotient(
        product(
            negation(sum(one(), minimum(a.material.restitution, b.material.restitution))),
            velocity_along_normal(contact, a, b),
        ),
        effective_inverse_mass(contact, a, b),
    )
}

/// The impulse that the first body gives to the second: along the normal.
pub open spec fn impulse<P, R, I, A>(
    contact: Contact<P>,
    a: ResolveData<'_, P, R, I, A>,
    b: ResolveData<'_, P, R, I, A>,
) -> P::Vector where
    P: Point,
    R: Copy,
    A: Angular<Vector = P::Vector>,
    I: Inertia<Orientation = R, Angular = A>,
 {
    scaling(contact.normal, impulse_magnitude(contact, a, b))
}

/// The bodies exchange an impulse: one of them can be moved, they are not
/// moving apart, and the effective inverse mass is not zero.
pub open spec fn exchanges_impulse<P, R, I, A>(
    contact: Contact<P>,
    a: ResolveData<'_, P, R, I, A>,
    b: ResolveData<'_, P, R, I, A>,
) -> bool where
    P: Point,
    R: Copy,
    A: Angular<Vector = P::Vector>,
    I: Inertia<Orientation = R, Angular = A>,
 {
    &&& !immovable(a.mass.inverse_mass, b.mass.inverse_mass)
    &&& !separating(contact, a, b)
    &&& !is_zero(effective_inverse_mass(contact, a, b))
}

/// The velocity of `body` after it has given the impulse `push` away at the
/// contact point.
pub open spec fn velocity_after_giving<P, R, I, A>(
    contact: Contact<P>,
    body: ResolveData<'_, P, R, I, A>,
    push: P::Vector,
) -> Velocity<P::Vector, A> where
    P: Point,
    R: Copy,
    A: Angular<Vector = P::Vector>,
    I: Inertia<Orientation = R, Angular = A>,
 {
    Velocity {
        linear: vector_difference(
            body.current_velocity().linear,
            scaling(push, body.mass.inverse_mass),
        ),
        angular: angular_difference(body.current_velocity().angular, body.angular_change(contact, push)),
    }
}

/// The velocity of `body` after it has taken the impulse `push` at the
/// contact point.
pub open spec fn velocity_after_taking<P, R, I, A>(
    contact: Contact<P>,
    body: ResolveData<'_, P, R, I, A>,
    push: P::Vector,
) -> Velocity<P::Vector, A> where
    P: Point,
    R: Copy,
    A: Angular<Vector = P::Vector>,
    I: Inertia<Orientation = R, Angular = A>,
 {
    Velocity {
        linear: vector_sum(body.current_velocity().linear, scaling(push, body.mass.inverse_mass)),
        angular: angular_sum(body.current_velocity().angular, body.angular_change(contact, push)),
    }
}

/// The change sets that resolving `contact` yields, the first for `a` and the
/// second for `b`. The pose is always there. The velocity is there for a body
/// that came with one, where an impulse is exchanged.
pub open spec fn resolution<P, R, I, A>(
    settings: CorrectionSettings<P::Scalar>,
    contact: Contact<P>,
    a: ResolveData<'_, P, R, I, A>,
    b: ResolveData<'_, P, R, I, A>,
) -> (SingleChangeSet<P, R, A>, SingleChangeSet<P, R, A>) where
    P: Point,
    R: Copy,
    A: Angular<Vector = P::Vector>,
    I: Inertia<Orientation = R, Angular = A>,
 {
    let poses = corrected_poses(
        settings,
        contact,
        *a.pose,
        *b.pose,
        a.mass.inverse_mass,
        b.mass.inverse_mass,
    );
    let exchange = exchanges_impulse(contact, a, b);
    let push = impulse(contact, a, b);
    (
        SingleChangeSet {
            pose: Some(poses.0),
            velocity: if exchange && a.velocity is Some {
                Some(NextFrame { value: velocity_after_giving(contact, a, push) })
            } else {
                None
            },
        },
        SingleChangeSet {
            pose: Some(poses.1),
            velocity: if exchange && b.velocity is Some {
                Some(NextFrame { value: velocity_after_taking(contact, b, push) })
            } else {
                None
            },
        },
    )
}

/// Resolves one contact with the given correction settings; see
/// [`resolve_contact`].
pub fn resolve_contact_with<'a, P, R, I, A>(
    settings: &CorrectionSettings<P::Scalar>,
    contact: &Contact<P>,
    a: ResolveData<'a, P, R, I, A>,
    b: ResolveData<'a, P, R, I, A>,
) -> (sets: (SingleChangeSet<P, R, A>, SingleChangeSet<P, R, A>)) where
    P: Point,
    R: Copy,
    A: Angular<Vector = P::Vector>,
    I: Inertia<Orientation = R, Angular = A>,

    ensures
        sets.0.pose is Some,
        sets.1.pose is Some,
        sets.0.pose->0.rotation == a.pose.rotation,
        sets.1.pose->0.rotation == b.pose.rotation,
        a.velocity is None ==> sets.0.velocity is None,
        b.velocity is None ==> sets.1.velocity is None,
        (sets.0.velocity is Some && sets.1.velocity is None) ==> b.velocity is None,
        (sets.1.velocity is Some && sets.0.velocity is None) ==> a.velocity is None,
        deterministic::<P, I>() ==> sets == resolution(*settings, *contact, a, b),
{
    let a_velocity = match a.velocity {
        Some(next) => next.value,
        None => Velocity::default(),
    };
    let b_velocity = match b.velocity {
        Some(next) => next.value,
        None => Velocity::default(),
    };
    let a_inverse_mass = a.mass.inverse_mass();
    let b_inverse_mass = b.mass.inverse_mass();
    let total_inverse_mass = a_inverse_mass.plus(b_inverse_mass);

    // The bodies are moved apart first, whatever happens to their velocities.
    let (a_position_new, b_position_new) = positional_correction(
        settings,
        contact,
        a.pose,
        b.pose,
        a_inverse_mass,
        b_inverse_mass,
    );
    let mut a_set = SingleChangeSet::default();
    a_set.add_pose(a_position_new);
    let mut b_set = SingleChangeSet::default();
    b_set.add_pose(b_position_new);

    // Two bodies that cannot be moved exchange no impulse.
    if total_inverse_mass.is_zero() || (a_inverse_mass.is_zero() && b_inverse_mass.is_zero()) {
        return (a_set, b_set);
    }
    let r_a = contact.contact_point.displacement(a.pose.position());
    let r_b = contact.contact_point.displacement(b.pose.position());

    let p_a_dot = a_velocity.linear().plus(a_velocity.angular().cross(r_a));
    let p_b_dot = b_velocity.linear().plus(b_velocity.angular().cross(r_b));

    let rv = p_b_dot.minus(p_a_dot);
    let velocity_along_normal = contact.normal.dot(rv);

    // Bodies that already move apart are left to do so.
    if velocity_along_normal.exceeds(P::Scalar::zero()) {
        return (a_set, b_set);
    }
    let e = smaller(a.material.restitution(), b.material.restitution());
    let numerator = P::Scalar::one().plus(e).negated().times(velocity_along_normal);

    let a_tensor = a.mass.world_inverse_inertia(&a.pose.rotation());
    let b_tensor = b.mass.world_inverse_inertia(&b.pose.rotation());

    let term3 = contact.normal.dot(a_tensor.apply(A::moment(r_a, contact.normal)).cross(r_a));
    let term4 = contact.normal.dot(b_tensor.apply(A::moment(r_b, contact.normal)).cross(r_b));

    // Masses and inertias that cancel leave nothing to divide by.
    let denominator = a_inverse_mass.plus(b_inverse_mass).plus(term3).plus(term4);
    if denominator.is_zero() {
        return (a_set, b_set);
    }
    let j = numerator.over(denominator);
    let impulse = contact.normal.scaled(j);

    let a_velocity_new = match a.velocity {
        Some(next) => Some(
            NextFrame {
                value: Velocity::new(
                    next.value.linear().minus(impulse.scaled(a_inverse_mass)),
                    next.value.angular().minus(a_tensor.apply(A::moment(r_a, impulse))),
                ),
            },
        ),
        None => None,
    };
    let b_velocity_new = match b.velocity {
        Some(next) => Some(
            NextFrame {
                value: Velocity::new(
                    next.value.linear().plus(impulse.scaled(b_inverse_mass)),
                    next.value.angular().plus(b_tensor.apply(A::moment(r_b, impulse))),
                ),
            },
        ),
        None => None,
    };
    a_set.add_velocity(a_velocity_new);
    b_set.add_velocity(b_velocity_new);

    (a_set, b_set)
}

/// Resolves one contact between the bodies `a` and `b`. The contact normal
/// must point from `a` to `b`.
///
/// Both bodies are moved apart by positional correction. Then, unless neither
/// body can be moved, or the bodies are moving apart already, or their masses
/// and inertias leave an effective inverse mass of zero, an impulse along the
/// normal is taken from the velocity of `a` and given to that of `b`. A body
/// that came without a velocity gets none back. Nothing is divided by zero.
pub fn resolve_contact<'a, P, R, I, A>(
    contact: &Contact<P>,
    a: ResolveData<'a, P, R, I, A>,
    b: ResolveData<'a, P, R, I, A>,
) -> (sets: (SingleChangeSet<P, R, A>, SingleChangeSet<P, R, A>)) where
    P: Point,
    R: Copy,
    A: Angular<Vector = P::Vector>,
    I: Inertia<Orientation = R, Angular = A>,

    ensures
        sets.0.pose is Some,
        sets.1.pose is Some,
        sets.0.pose->0.rotation == a.pose.rotation,
        sets.1.pose->0.rotation == b.pose.rotation,
        a.velocity is None ==> sets.0.velocity is None,
        b.velocity is None ==> sets.1.velocity is None,
        (sets.0.velocity is Some && sets.1.velocity is None) ==> b.velocity is None,
        (sets.1.velocity is Some && sets.0.velocity is None) ==> a.velocity is None,
        deterministic::<P, I>() ==> sets == resolution(standard_settings(), *contact, a, b),
{
    let settings = CorrectionSettings::standard();
    resolve_contact_with(&settings, contact, a, b)
}

} // verus!

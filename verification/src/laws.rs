//! What holds of every resolution, stated over the change sets that
//! [`resolution`] describes.
use crate::algebra::{
    difference, exceeds, is_zero, product, quotient, scaling, vector_difference, vector_sum, zero,
    Angular, Inertia, Point, Scalar,
};
use crate::body::Contact;
use crate::resolution::{
    correction_magnitude, exchanges_impulse, immovable, impulse, resolution, separating,
    CorrectionSettings, ResolveData,
};
use vstd::prelude::*;

verus! {

/// Two bodies that cannot be moved (each inverse mass is zero, or their sum
/// is) are given their corrected poses and no new velocity.
pub proof fn lemma_immovable_pair<P, R, I, A>(
    settings: CorrectionSettings<P::Scalar>,
    contact: Contact<P>,
    a: ResolveData<'_, P, R, I, A>,
    b: ResolveData<'_, P, R, I, A>,
) where
    P: Point,
    R: Copy,
    A: Angular<Vector = P::Vector>,
    I: Inertia<Orientation = R, Angular = A>,

    requires
        immovable(a.mass.inverse_mass, b.mass.inverse_mass),
    ensures
        resolution(settings, contact, a, b).0.pose is Some,
        resolution(settings, contact, a, b).1.pose is Some,
        resolution(settings, contact, a, b).0.velocity is None,
        resolution(settings, contact, a, b).1.velocity is None,
{
}

/// Bodies that move apart along the normal are given their corrected poses
/// and no new velocity.
pub proof fn lemma_separating_pair<P, R, I, A>(
    settings: CorrectionSettings<P::Scalar>,
    contact: Contact<P>,
    a: ResolveData<'_, P, R, I, A>,
    b: ResolveData<'_, P, R, I, A>,
) where
    P: Point,
    R: Copy,
    A: Angular<Vector = P::Vector>,
    I: Inertia<Orientation = R, Angular = A>,

    requires
        separating(contact, a, b),
    ensures
        resolution(settings, contact, a, b).0.pose is Some,
        resolution(settings, contact, a, b).1.pose is Some,
        resolution(settings, contact, a, b).0.velocity is None,
        resolution(settings, contact, a, b).1.velocity is None,
{
}

/// Where two bodies of equal inverse mass exchange an impulse, one vector is
/// taken from the linear velocity of the first and added to that of the
/// second: the impulse times the inverse mass.
pub proof fn lemma_momentum_exchange<P, R, I, A>(
    settings: CorrectionSettings<P::Scalar>,
    contact: Contact<P>,
    a: ResolveData<'_, P, R, I, A>,
    b: ResolveData<'_, P, R, I, A>,
) where
    P: Point,
    R: Copy,
    A: Angular<Vector = P::Vector>,
    I: Inertia<Orientation = R, Angular = A>,

    requires
        a.velocity is Some,
        b.velocity is Some,
        a.mass.inverse_mass == b.mass.inverse_mass,
        exchanges_impulse(contact, a, b),
    ensures
        resolution(settings, contact, a, b).0.velocity is Some,
        resolution(settings, contact, a, b).1.velocity is Some,
        ({
            let exchanged = scaling(impulse(contact, a, b), a.mass.inverse_mass);
            let sets = resolution(settings, contact, a, b);
            &&& sets.0.velocity->0.value.linear == vector_difference(
                a.velocity->0.value.linear,
                exchanged,
            )
            &&& sets.1.velocity->0.value.linear == vector_sum(
                b.velocity->0.value.linear,
                exchanged,
            )
        }),
{
}

/// An overlap that does not exceed the slop is not corrected: the length of
/// the correction is the scalar zero itself.
pub proof fn lemma_no_correction_within_slop<S: Scalar>(
    settings: CorrectionSettings<S>,
    penetration_depth: S,
    total_inverse_mass: S,
)
    requires
        !exceeds(penetration_depth, settings.slop),
    ensures
        correction_magnitude(settings, penetration_depth, total_inverse_mass) == zero::<S>(),
{
}

/// An overlap beyond the slop is corrected in proportion to what lies beyond
/// the slop and to the correction percentage: the length of the correction is
/// their product, over the total inverse mass.
pub proof fn lemma_correction_beyond_slop<S: Scalar>(
    settings: CorrectionSettings<S>,
    penetration_depth: S,
    total_inverse_mass: S,
)
    requires
        exceeds(penetration_depth, settings.slop),
        !is_zero(total_inverse_mass),
    ensures
        correction_magnitude(settings, penetration_depth, total_inverse_mass) == product(
            quotient(difference(penetration_depth, settings.slop), total_inverse_mass),
            settings.percent,
        ),
{
}

/// A body that comes without a velocity is given none, whatever the impulse.
pub proof fn lemma_static_body_exclusion<P, R, I, A>(
    settings: CorrectionSettings<P::Scalar>,
    contact: Contact<P>,
    a: ResolveData<'_, P, R, I, A>,
    b: ResolveData<'_, P, R, I, A>,
) where
    P: Point,
    R: Copy,
    A: Angular<Vector = P::Vector>,
    I: Inertia<Orientation = R, Angular = A>,

    ensures
        a.velocity is None ==> resolution(settings, contact, a, b).0.velocity is None,
        b.velocity is None ==> resolution(settings, contact, a, b).1.velocity is None,
{
}

} // verus!

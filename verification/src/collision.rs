//! The collision resolver.
//!
//! A [`Collision`] is the transient contact record a successful
//! narrow-phase test produces: the indices of the two involved bodies in
//! their arenas, the minimum penetration, the signed separating axis,
//! and the contact vertex. It
//! lives for one tick only. Resolution is two independent corrections:
//! [`Collision::divide_objects`] separates the bodies positionally in
//! proportion to their inverse masses, and [`Collision::change_energy`]
//! applies an impulse at the contact point that reverses the closing
//! velocity according to the joint restitution, with an angular response
//! through each body's inverse inertia.

use vstd::prelude::*;

use crate::fx::{
    abs1, fx_add, fx_div, fx_mul, fx_neg, fx_sub, lemma_fx_mul_neg_one, lemma_fx_units,
    lemma_mag_product, lemma_trunc_div_bound, lemma_trunc_div_cancel,
    lemma_trunc_div_neg, spec_fx_add, spec_fx_div, spec_fx_mul, spec_fx_neg, spec_fx_sub,
    trunc_div, FX_ONE,
};
use crate::traits::{spec_inverse_of, BodyView, ObjectInterface};
use crate::vec2d::Vec2D;

verus! {

/// A transient contact between the bodies at `object1` and `object2`
/// of their arenas, valid for the tick that produced it.
#[derive(Clone, Copy, PartialEq, Eq, Structural, Debug)]
pub struct Collision {
    pub object1: usize,
    pub object2: usize,
    pub min_overlap: i64,
    pub smallest_axis: Vec2D,
    pub contact_vertex: Vec2D,
}

impl Collision {
    /// A contact record from a narrow-phase result, between the bodies
    /// at indices `object1` and `object2`.
    pub fn new(object1: usize, object2: usize, sat_result: (i64, Vec2D, Vec2D)) -> (r: Collision)
        ensures
            r == (Collision {
                object1,
                object2,
                min_overlap: sat_result.0,
                smallest_axis: sat_result.1,
                contact_vertex: sat_result.2,
            }),
    {
        let (min_overlap, smallest_axis, contact_vertex) = sat_result;
        Collision { object1, object2, min_overlap, smallest_axis, contact_vertex }
    }
}

/// The two bodies after positional correction: both tentative
/// positions move along `axis` by `min_overlap / (inverse_mass1 +
/// inverse_mass2)`, each in proportion to its own inverse mass and in
/// opposite directions, so the commit step sees the separated state; a
/// body with inverse mass zero does not move.
pub open spec fn divide_views(
    b1: BodyView,
    b2: BodyView,
    min_overlap: i64,
    axis: Vec2D,
) -> (BodyView, BodyView) {
    let inverse1 = spec_inverse_of(b1.mass);
    let inverse2 = spec_inverse_of(b2.mass);
    let share = axis.spec_mul_n(spec_fx_div(min_overlap, spec_fx_add(inverse1, inverse2)));
    (
        BodyView {
            position_potential: b1.position_potential.spec_add(share.spec_mul_n(inverse1)),
            ..b1
        },
        BodyView {
            position_potential: b2.position_potential.spec_add(
                share.spec_mul_n(spec_fx_neg(inverse2)),
            ),
            ..b2
        },
    )
}

/// The closing velocity of a body at the contact point: its linear
/// velocity plus the rotational contribution of its angular velocity
/// over the lever arm from its tentative position to the contact.
pub open spec fn closing_velocity(b: BodyView, contact: Vec2D) -> Vec2D {
    let arm = contact.spec_sub(b.position_potential);
    b.velocity.spec_add(
        Vec2D {
            x: spec_fx_mul(spec_fx_neg(b.angle_velocity), arm.y),
            y: spec_fx_mul(b.angle_velocity, arm.x),
        },
    )
}

/// The angular term a body adds to the impulse denominator:
/// `cross(arm, axis) * inverse_inertia * cross(arm, axis)`.
pub open spec fn impulse_augmentation(b: BodyView, axis: Vec2D, contact: Vec2D) -> i64 {
    let arm = contact.spec_sub(b.position_potential);
    let augmentation = Vec2D::spec_cross(arm, axis);
    spec_fx_mul(spec_fx_mul(augmentation, spec_inverse_of(b.inertia)), augmentation)
}

/// The impulse magnitude of a contact: the change of separating
/// velocity demanded by the joint restitution, divided by the sum of
/// the inverse masses and both angular terms.
pub open spec fn impulse_of(b1: BodyView, b2: BodyView, axis: Vec2D, contact: Vec2D) -> i64 {
    let separate_velocity = Vec2D::spec_dot(
        closing_velocity(b1, contact).spec_sub(closing_velocity(b2, contact)),
        axis,
    );
    let elasticity = if b1.elasticity < b2.elasticity {
        b1.elasticity
    } else {
        b2.elasticity
    };
    let new_separate_velocity = spec_fx_mul(spec_fx_neg(separate_velocity), elasticity);
    let difference = spec_fx_sub(new_separate_velocity, separate_velocity);
    let denominator = spec_fx_add(
        spec_fx_add(
            spec_fx_add(spec_inverse_of(b1.mass), spec_inverse_of(b2.mass)),
            impulse_augmentation(b1, axis, contact),
        ),
        impulse_augmentation(b2, axis, contact),
    );
    spec_fx_div(difference, denominator)
}

/// The two bodies after the velocity impulse: opposite linear kicks in
/// proportion to the inverse masses, and opposite angular kicks from
/// the lever-arm cross products and inverse inertias.
pub open spec fn energy_views(
    b1: BodyView,
    b2: BodyView,
    axis: Vec2D,
    contact: Vec2D,
) -> (BodyView, BodyView) {
    let arm1 = contact.spec_sub(b1.position_potential);
    let arm2 = contact.spec_sub(b2.position_potential);
    let impulse_vector = axis.spec_mul_n(impulse_of(b1, b2, axis, contact));
    (
        BodyView {
            velocity: b1.velocity.spec_add(impulse_vector.spec_mul_n(spec_inverse_of(b1.mass))),
            angle_velocity: spec_fx_add(
                b1.angle_velocity,
                spec_fx_mul(
                    spec_inverse_of(b1.inertia),
                    Vec2D::spec_cross(arm1, impulse_vector),
                ),
            ),
            ..b1
        },
        BodyView {
            velocity: b2.velocity.spec_add(
                impulse_vector.spec_mul_n(spec_fx_neg(spec_inverse_of(b2.mass))),
            ),
            angle_velocity: spec_fx_sub(
                b2.angle_velocity,
                spec_fx_mul(
                    spec_inverse_of(b2.inertia),
                    Vec2D::spec_cross(arm2, impulse_vector),
                ),
            ),
            ..b2
        },
    )
}

impl Collision {
    /// Positional correction: push the two bodies' tentative positions
    /// apart along the separating axis, each by its inverse-mass share
    /// of the penetration, so that the commit step of the tick carries
    /// the separation into the committed state; see [`divide_views`].
    pub fn divide_objects<T1: ObjectInterface, T2: ObjectInterface>(
        &self,
        object1: &mut T1,
        object2: &mut T2,
    )
        ensures
            final(object1).obj() == divide_views(
                old(object1).obj(),
                old(object2).obj(),
                self.min_overlap,
                self.smallest_axis,
            ).0,
            final(object2).obj() == divide_views(
                old(object1).obj(),
                old(object2).obj(),
                self.min_overlap,
                self.smallest_axis,
            ).1,
    {
        let share = self.smallest_axis.mul_n(
            fx_div(
                self.min_overlap,
                fx_add(object1.get_inversion_mass(), object2.get_inversion_mass()),
            ),
        );
        let moved1 = object1.get_potential_position().add(
            share.mul_n(object1.get_inversion_mass()),
        );
        object1.set_potential_position(moved1);
        let moved2 = object2.get_potential_position().add(
            share.mul_n(fx_neg(object2.get_inversion_mass())),
        );
        object2.set_potential_position(moved2);
    }

    /// Velocity and angular-velocity correction: apply the contact
    /// impulse to both bodies with opposite signs; see
    /// [`energy_views`].
    pub fn change_energy<T1: ObjectInterface, T2: ObjectInterface>(
        &self,
        object1: &mut T1,
        object2: &mut T2,
    )
        ensures
            final(object1).obj() == energy_views(
                old(object1).obj(),
                old(object2).obj(),
                self.smallest_axis,
                self.contact_vertex,
            ).0,
            final(object2).obj() == energy_views(
                old(object1).obj(),
                old(object2).obj(),
                self.smallest_axis,
                self.contact_vertex,
            ).1,
    {
        let collision_arm1 = self.contact_vertex.sub(object1.get_potential_position());
        let rotation_velocity1 = Vec2D::new(
            fx_mul(fx_neg(object1.get_angle_velocity()), collision_arm1.y),
            fx_mul(object1.get_angle_velocity(), collision_arm1.x),
        );
        let closing_velocity1 = object1.get_velocity().add(rotation_velocity1);
        let collision_arm2 = self.contact_vertex.sub(object2.get_potential_position());
        let rotation_velocity2 = Vec2D::new(
            fx_mul(fx_neg(object2.get_angle_velocity()), collision_arm2.y),
            fx_mul(object2.get_angle_velocity(), collision_arm2.x),
        );
        let closing_velocity2 = object2.get_velocity().add(rotation_velocity2);

        let mut impulse_augmentation1 = Vec2D::cross(&collision_arm1, &self.smallest_axis);
        impulse_augmentation1 = fx_mul(
            fx_mul(impulse_augmentation1, object1.get_inversion_inertia()),
            impulse_augmentation1,
        );
        let mut impulse_augmentation2 = Vec2D::cross(&collision_arm2, &self.smallest_axis);
        impulse_augmentation2 = fx_mul(
            fx_mul(impulse_augmentation2, object2.get_inversion_inertia()),
            impulse_augmentation2,
        );

        let relative_velocity = closing_velocity1.sub(closing_velocity2);
        let separate_velocity = Vec2D::dot(&relative_velocity, &self.smallest_axis);
        let elasticity1 = object1.get_elasticity();
        let elasticity2 = object2.get_elasticity();
        let elasticity = if elasticity1 < elasticity2 {
            elasticity1
        } else {
            elasticity2
        };
        let new_separate_velocity = fx_mul(fx_neg(separate_velocity), elasticity);
        let separate_velocity_difference = fx_sub(new_separate_velocity, separate_velocity);

        let impulse = fx_div(
            separate_velocity_difference,
            fx_add(
                fx_add(
                    fx_add(object1.get_inversion_mass(), object2.get_inversion_mass()),
                    impulse_augmentation1,
                ),
                impulse_augmentation2,
            ),
        );
        let impulse_vector = self.smallest_axis.mul_n(impulse);

        let kicked1 = object1.get_velocity().add(
            impulse_vector.mul_n(object1.get_inversion_mass()),
        );
        object1.set_velocity(kicked1);
        let kicked2 = object2.get_velocity().add(
            impulse_vector.mul_n(fx_neg(object2.get_inversion_mass())),
        );
        object2.set_velocity(kicked2);

        let spun1 = fx_add(
            object1.get_angle_velocity(),
            fx_mul(
                object1.get_inversion_inertia(),
                Vec2D::cross(&collision_arm1, &impulse_vector),
            ),
        );
        object1.set_angle_velocity(spun1);
        let spun2 = fx_sub(
            object2.get_angle_velocity(),
            fx_mul(
                object2.get_inversion_inertia(),
                Vec2D::cross(&collision_arm2, &impulse_vector),
            ),
        );
        object2.set_angle_velocity(spun2);
    }
}

/// Magnitude within which the impulse laws below are exact: far enough
/// from saturation that no step of the resolver clamps.
pub const LAW_LIMIT: i64 = 1099511627776;

/// A body with zero mass counts as immovable: `divide_objects` leaves
/// its position exactly where it was, whatever the contact, while the
/// other body still takes its own share of the separation.
pub proof fn lemma_divide_objects_immovable(
    b1: BodyView,
    b2: BodyView,
    min_overlap: i64,
    axis: Vec2D,
)
    ensures
        b1.mass == 0 ==> divide_views(b1, b2, min_overlap, axis).0 == b1,
        b2.mass == 0 ==> divide_views(b1, b2, min_overlap, axis).1 == b2,
{
    assert(spec_fx_neg(0i64) == 0i64);
    assert(forall|v: Vec2D| #[trigger] v.spec_mul_n(0i64) == (Vec2D { x: 0i64, y: 0i64 }));
    assert(forall|v: Vec2D| #[trigger] v.spec_add(Vec2D { x: 0i64, y: 0i64 }) == v);
}

/// The elastic collision law: with full restitution, equal unit
/// masses, no spin and a contact on the line of centers, two bodies
/// meeting along the x axis exchange their approach velocities
/// exactly, and neither starts to spin.
pub proof fn lemma_change_energy_exchange(b1: BodyView, b2: BodyView, contact: Vec2D)
    requires
        b1.mass == FX_ONE,
        b2.mass == FX_ONE,
        b1.elasticity == FX_ONE,
        b2.elasticity == FX_ONE,
        b1.angle_velocity == 0,
        b2.angle_velocity == 0,
        contact.y == b1.position_potential.y,
        contact.y == b2.position_potential.y,
        abs1(b1.velocity.x as int) <= LAW_LIMIT,
        abs1(b2.velocity.x as int) <= LAW_LIMIT,
    ensures
        energy_views(b1, b2, Vec2D { x: FX_ONE, y: 0 }, contact).0 == (BodyView {
            velocity: Vec2D { x: b2.velocity.x, y: b1.velocity.y },
            ..b1
        }),
        energy_views(b1, b2, Vec2D { x: FX_ONE, y: 0 }, contact).1 == (BodyView {
            velocity: Vec2D { x: b1.velocity.x, y: b2.velocity.y },
            ..b2
        }),
{
    let axis = Vec2D { x: FX_ONE, y: 0i64 };
    let arm1 = contact.spec_sub(b1.position_potential);
    let arm2 = contact.spec_sub(b2.position_potential);
    assert(arm1.y == 0);
    assert(arm2.y == 0);
    lemma_fx_units();
    assert(closing_velocity(b1, contact) == b1.velocity);
    assert(closing_velocity(b2, contact) == b2.velocity);
    assert(Vec2D::spec_cross(arm1, axis) == 0);
    assert(Vec2D::spec_cross(arm2, axis) == 0);
    assert(impulse_augmentation(b1, axis, contact) == 0);
    assert(impulse_augmentation(b2, axis, contact) == 0);
    let inverse = spec_inverse_of(FX_ONE);
    assert(inverse == FX_ONE) by {
        lemma_trunc_div_cancel(FX_ONE as int, FX_ONE as int);
    }
    let rel = b1.velocity.spec_sub(b2.velocity);
    assert(rel.x == b1.velocity.x - b2.velocity.x);
    let sep = Vec2D::spec_dot(rel, axis);
    assert(sep == rel.x);
    let diff = spec_fx_sub(spec_fx_mul(spec_fx_neg(sep), FX_ONE), sep);
    assert(diff == -2 * (sep as int));
    let denominator = spec_fx_add(spec_fx_add(spec_fx_add(inverse, inverse), 0), 0);
    assert(denominator == 2097152);
    let impulse = impulse_of(b1, b2, axis, contact);
    assert(impulse == spec_fx_div(diff, 2097152i64));
    assert((diff as int) * (FX_ONE as int) == (-(sep as int)) * 2097152) by (nonlinear_arith)
        requires diff as int == -2 * (sep as int);
    assert(trunc_div(diff as int * (FX_ONE as int), 2097152) == -(sep as int)) by {
        lemma_trunc_div_cancel(-(sep as int), 2097152);
    }
    assert(impulse == -(sep as int));
    let impulse_vector = axis.spec_mul_n(impulse);
    assert(impulse_vector == (Vec2D { x: impulse, y: 0i64 }));
    assert(impulse_vector.spec_mul_n(inverse) == impulse_vector);
    assert(spec_fx_neg(inverse) == (-1048576) as i64);
    assert(impulse_vector.spec_mul_n(spec_fx_neg(inverse)) == (Vec2D {
        x: spec_fx_neg(impulse),
        y: 0i64,
    })) by {
        lemma_fx_mul_neg_one(impulse);
        lemma_fx_mul_neg_one(0i64);
    }
    assert(b1.velocity.spec_add(impulse_vector) == (Vec2D {
        x: b2.velocity.x,
        y: b1.velocity.y,
    }));
    assert(b2.velocity.spec_add(Vec2D { x: spec_fx_neg(impulse), y: 0i64 }) == (Vec2D {
        x: b1.velocity.x,
        y: b2.velocity.y,
    }));
    assert(Vec2D::spec_cross(arm1, impulse_vector) == 0);
    assert(Vec2D::spec_cross(arm2, impulse_vector) == 0);
}

/// The boundary-rebound law: a unit-mass body without spin striking an
/// immovable resting body along the x axis, through its center, comes
/// away with its approach velocity reversed and scaled by the joint
/// restitution, exactly to the stated truncation; the immovable body
/// does not change at all.
pub proof fn lemma_change_energy_rebound(b1: BodyView, b2: BodyView, contact: Vec2D)
    requires
        b1.mass == FX_ONE,
        b1.angle_velocity == 0,
        b2.mass == 0,
        b2.inertia == 0,
        b2.velocity == (Vec2D { x: 0i64, y: 0i64 }),
        b2.angle_velocity == 0,
        contact.y == b1.position_potential.y,
        0 <= b1.elasticity <= FX_ONE,
        0 <= b2.elasticity <= FX_ONE,
        abs1(b1.velocity.x as int) <= LAW_LIMIT,
    ensures
        energy_views(b1, b2, Vec2D { x: FX_ONE, y: 0 }, contact).0 == (BodyView {
            velocity: Vec2D {
                x: spec_fx_neg(
                    spec_fx_mul(
                        b1.velocity.x,
                        if b1.elasticity < b2.elasticity {
                            b1.elasticity
                        } else {
                            b2.elasticity
                        },
                    ),
                ),
                y: b1.velocity.y,
            },
            ..b1
        }),
        energy_views(b1, b2, Vec2D { x: FX_ONE, y: 0 }, contact).1 == b2,
{
    let axis = Vec2D { x: FX_ONE, y: 0i64 };
    let arm1 = contact.spec_sub(b1.position_potential);
    assert(arm1.y == 0);
    lemma_fx_units();
    assert(closing_velocity(b1, contact) == b1.velocity);
    assert(closing_velocity(b2, contact) == b2.velocity);
    assert(impulse_augmentation(b1, axis, contact) == 0);
    assert(impulse_augmentation(b2, axis, contact) == 0);
    let inverse = spec_inverse_of(FX_ONE);
    assert(inverse == FX_ONE) by {
        lemma_trunc_div_cancel(FX_ONE as int, FX_ONE as int);
    }
    assert(spec_inverse_of(b2.mass) == 0);
    assert(spec_inverse_of(b2.inertia) == 0);
    let rel = b1.velocity.spec_sub(b2.velocity);
    assert(rel.x == b1.velocity.x);
    let sep = Vec2D::spec_dot(rel, axis);
    assert(sep == b1.velocity.x);
    let elasticity = if b1.elasticity < b2.elasticity {
        b1.elasticity
    } else {
        b2.elasticity
    };
    let bounced = spec_fx_mul(sep, elasticity);
    assert(abs1((sep as int) * (elasticity as int)) == abs1(sep as int) * abs1(elasticity as int))
        by {
        lemma_mag_product(sep as int, elasticity as int);
    }
    assert(abs1((sep as int) * (elasticity as int)) <= LAW_LIMIT * (FX_ONE as int))
        by (nonlinear_arith)
        requires
            abs1(sep as int) <= LAW_LIMIT,
            0 <= elasticity <= FX_ONE,
            abs1((sep as int) * (elasticity as int)) == abs1(sep as int) * abs1(
                elasticity as int,
            ),
    ;
    assert(abs1(trunc_div((sep as int) * (elasticity as int), FX_ONE as int)) <= LAW_LIMIT) by {
        lemma_trunc_div_bound((sep as int) * (elasticity as int), FX_ONE as int, LAW_LIMIT as int);
    }
    assert(bounced == trunc_div((sep as int) * (elasticity as int), FX_ONE as int));
    assert(spec_fx_mul(spec_fx_neg(sep), elasticity) == spec_fx_neg(bounced)) by {
        assert((-(sep as int)) * (elasticity as int) == -((sep as int) * (elasticity as int)))
            by (nonlinear_arith);
        lemma_trunc_div_neg((sep as int) * (elasticity as int), FX_ONE as int);
    }
    let diff = spec_fx_sub(spec_fx_neg(bounced), sep);
    assert(diff == -(bounced as int) - (sep as int));
    let denominator = spec_fx_add(spec_fx_add(spec_fx_add(inverse, 0), 0), 0);
    assert(denominator == FX_ONE);
    let impulse = impulse_of(b1, b2, axis, contact);
    assert(impulse == spec_fx_div(diff, FX_ONE));
    assert(impulse == diff) by {
        lemma_trunc_div_cancel(diff as int, FX_ONE as int);
    }
    let impulse_vector = axis.spec_mul_n(impulse);
    assert(impulse_vector == (Vec2D { x: impulse, y: 0i64 }));
    assert(impulse_vector.spec_mul_n(inverse) == impulse_vector);
    assert(b1.velocity.spec_add(impulse_vector) == (Vec2D {
        x: spec_fx_neg(bounced),
        y: b1.velocity.y,
    }));
    assert(Vec2D::spec_cross(arm1, impulse_vector) == 0);
    assert(spec_fx_neg(0i64) == 0i64);
    assert(forall|v: Vec2D| #[trigger] v.spec_mul_n(0i64) == (Vec2D { x: 0i64, y: 0i64 }));
    assert(forall|v: Vec2D| #[trigger] v.spec_add(Vec2D { x: 0i64, y: 0i64 }) == v);
}

} // verus!

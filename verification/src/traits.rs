//! The body capability model.
//!
//! [`ObjectInterface`] is the capability every collidable body offers:
//! double-buffered position state, extent, world-space corners and a
//! primary direction, together with the kinematic attribute set the
//! collision resolver reads and writes. [`MoveInterface`] refines it with
//! the per-tick operations of a dynamic body. Every method's effect is
//! stated against [`BodyView`], one ghost record of everything the
//! collision pipeline can observe of a body, so generic code is verified
//! once for every shape.

use vstd::prelude::*;

use crate::angle::Angle;
use crate::fx::{
    spec_fx_add, spec_fx_div, spec_fx_half, spec_fx_len, spec_fx_mul, spec_fx_neg, spec_fx_sub,
    FX_ONE,
};
use crate::vec2d::Vec2D;

verus! {

/// Coordinate magnitude within which the boundary-reflection walk is
/// verified: far below saturation, far above any sensible world.
pub const WORLD_LIMIT: i64 = 1125899906842624;

/// The observable state of a body: committed ("current") and tentative
/// ("potential") position and corners, extent, orientation, and the
/// kinematic attributes of the impulse model.
pub ghost struct BodyView {
    pub position_current: Vec2D,
    pub position_potential: Vec2D,
    pub vertex_current: Seq<Vec2D>,
    pub vertex_potential: Seq<Vec2D>,
    pub size: Vec2D,
    pub direction: Vec2D,
    pub mass: i64,
    pub inertia: i64,
    pub elasticity: i64,
    pub velocity: Vec2D,
    pub friction: i64,
    pub angle: i64,
    pub angle_velocity: i64,
    pub angle_friction: i64,
}

/// The inverse of a mass or inertia: zero encodes "cannot be moved by
/// any impulse", the convention for static or fixed bodies.
pub open spec fn spec_inverse_of(v: i64) -> i64 {
    if v == 0 {
        0
    } else {
        spec_fx_div(FX_ONE, v)
    }
}

/// One explicit-Euler integration step: the tentative position advances
/// by `velocity * time`; nothing else moves.
pub open spec fn tracer_view(b: BodyView, time: i64) -> BodyView {
    BodyView {
        position_potential: b.position_potential.spec_add(
            Vec2D {
                x: spec_fx_mul(b.velocity.x, time),
                y: spec_fx_mul(b.velocity.y, time),
            },
        ),
        ..b
    }
}

/// The commit step of a tick: the refreshed tentative corners become
/// both vertex buffers and the tentative position becomes current.
pub open spec fn commit_view(b: BodyView, refreshed: Seq<Vec2D>) -> BodyView {
    BodyView {
        vertex_potential: refreshed,
        vertex_current: refreshed,
        position_current: b.position_potential,
        ..b
    }
}

/// Radius of the circle circumscribed around a body: half the length of
/// its extent vector.
pub open spec fn circumscribed_radius(b: BodyView) -> i64 {
    spec_fx_half(spec_fx_len(b.size.x, b.size.y))
}

/// The broad-phase pre-filter: the circumscribed circles of the two
/// bodies, around their tentative positions, touch or overlap.
pub open spec fn circles_overlap(a: BodyView, b: BodyView) -> bool {
    a.position_potential.spec_len_vector(&b.position_potential) <= spec_fx_add(
        circumscribed_radius(a),
        circumscribed_radius(b),
    )
}

/// Axis-aligned overlap test between this body's tentative position and
/// another box given by center and extent.
pub open spec fn aabb_overlap(b: BodyView, position: Vec2D, size: Vec2D) -> bool {
    &&& crate::fx::abs1(b.position_potential.x - position.x) <= crate::fx::trunc_div(
        b.size.x + size.x,
        2,
    )
    &&& crate::fx::abs1(b.position_potential.y - position.y) <= crate::fx::trunc_div(
        b.size.y + size.y,
        2,
    )
}

/// There is room for the body between the two corners of the boundary,
/// with more than a tick to spare: with exactly one tick of slack an
/// odd-sized body could bounce between the walls forever.
pub open spec fn boundary_room(plt: Vec2D, prb: Vec2D, size: Vec2D) -> bool {
    &&& plt.x + spec_fx_half(size.x) < prb.x - spec_fx_half(size.x) - 1
    &&& plt.y + spec_fx_half(size.y) < prb.y - spec_fx_half(size.y) - 1
}

/// The body's extent crosses the left wall `x = plt.x`.
pub open spec fn beyond_low_x(b: BodyView, plt: Vec2D) -> bool {
    plt.x > spec_fx_sub(b.position_potential.x, spec_fx_half(b.size.x))
}

/// The body's extent reaches or crosses the right wall `x = prb.x`.
pub open spec fn beyond_high_x(b: BodyView, prb: Vec2D) -> bool {
    spec_fx_add(b.position_potential.x, spec_fx_half(b.size.x)) >= prb.x
}

/// The body's extent crosses the top wall `y = plt.y`.
pub open spec fn beyond_low_y(b: BodyView, plt: Vec2D) -> bool {
    plt.y > spec_fx_sub(b.position_potential.y, spec_fx_half(b.size.y))
}

/// The body's extent reaches or crosses the bottom wall `y = prb.y`.
pub open spec fn beyond_high_y(b: BodyView, prb: Vec2D) -> bool {
    spec_fx_add(b.position_potential.y, spec_fx_half(b.size.y)) >= prb.y
}

/// The body's tentative position keeps its whole extent inside the
/// boundary corners: the exit condition of the reflection walk.
pub open spec fn in_boundaries(b: BodyView, plt: Vec2D, prb: Vec2D) -> bool {
    &&& !(beyond_low_x(b, plt) || beyond_high_x(b, prb))
    &&& !(beyond_low_y(b, plt) || beyond_high_y(b, prb))
}

/// One reflection off the left wall: the x velocity reverses, the
/// committed position moves to where the motion from current to
/// tentative crossed the wall (or to the wall at the current height for
/// a parallel motion), offset half a width inward, and the tentative x
/// is mirrored to `2 * plt.x + size.x - x`.
pub open spec fn reflect_low_x_view(b: BodyView, plt: Vec2D, prb: Vec2D) -> BodyView {
    let crossing = Vec2D::spec_cross_pointll(
        b.position_current,
        b.position_potential,
        plt,
        Vec2D { x: plt.x, y: prb.y },
    );
    let base = if crossing is Some {
        crossing->Some_0
    } else {
        Vec2D { x: plt.x, y: b.position_current.y }
    };
    BodyView {
        position_current: base.spec_add(Vec2D { x: spec_fx_half(b.size.x), y: 0 }),
        position_potential: Vec2D {
            x: spec_fx_sub(
                spec_fx_add(plt.x, plt.x),
                spec_fx_sub(b.position_potential.x, b.size.x),
            ),
            y: b.position_potential.y,
        },
        velocity: Vec2D { x: spec_fx_neg(b.velocity.x), y: b.velocity.y },
        ..b
    }
}

/// One reflection off the right wall: like the left one mirrored, the
/// tentative x becoming `2 * prb.x - size.x - x` — except that a body
/// whose reflection lands exactly where it stood steps one tick inside
/// instead.
pub open spec fn reflect_high_x_view(b: BodyView, plt: Vec2D, prb: Vec2D) -> BodyView {
    let crossing = Vec2D::spec_cross_pointll(
        b.position_current,
        b.position_potential,
        prb,
        Vec2D { x: prb.x, y: plt.y },
    );
    let base = if crossing is Some {
        crossing->Some_0
    } else {
        Vec2D { x: prb.x, y: b.position_current.y }
    };
    let mirrored = spec_fx_sub(
        spec_fx_add(prb.x, prb.x),
        spec_fx_add(b.position_potential.x, b.size.x),
    );
    let landed = if mirrored == b.position_potential.x {
        spec_fx_sub(prb.x, spec_fx_add(spec_fx_half(b.size.x), 1))
    } else {
        mirrored
    };
    BodyView {
        position_current: base.spec_sub(Vec2D { x: spec_fx_half(b.size.x), y: 0 }),
        position_potential: Vec2D { x: landed, y: b.position_potential.y },
        velocity: Vec2D { x: spec_fx_neg(b.velocity.x), y: b.velocity.y },
        ..b
    }
}

/// One reflection off the top wall: the y counterpart of the left one.
pub open spec fn reflect_low_y_view(b: BodyView, plt: Vec2D, prb: Vec2D) -> BodyView {
    let crossing = Vec2D::spec_cross_pointll(
        b.position_current,
        b.position_potential,
        plt,
        Vec2D { x: prb.x, y: plt.y },
    );
    let base = if crossing is Some {
        crossing->Some_0
    } else {
        Vec2D { x: b.position_current.x, y: plt.y }
    };
    BodyView {
        position_current: base.spec_add(Vec2D { x: 0, y: spec_fx_half(b.size.y) }),
        position_potential: Vec2D {
            x: b.position_potential.x,
            y: spec_fx_sub(
                spec_fx_add(plt.y, plt.y),
                spec_fx_sub(b.position_potential.y, b.size.y),
            ),
        },
        velocity: Vec2D { x: b.velocity.x, y: spec_fx_neg(b.velocity.y) },
        ..b
    }
}

/// One reflection off the bottom wall: the y counterpart of the right
/// one, with the same one-tick step inside for a reflective fixpoint.
pub open spec fn reflect_high_y_view(b: BodyView, plt: Vec2D, prb: Vec2D) -> BodyView {
    let crossing = Vec2D::spec_cross_pointll(
        b.position_current,
        b.position_potential,
        prb,
        Vec2D { x: plt.x, y: prb.y },
    );
    let base = if crossing is Some {
        crossing->Some_0
    } else {
        Vec2D { x: b.position_current.x, y: prb.y }
    };
    let mirrored = spec_fx_sub(
        spec_fx_add(prb.y, prb.y),
        spec_fx_add(b.position_potential.y, b.size.y),
    );
    let landed = if mirrored == b.position_potential.y {
        spec_fx_sub(prb.y, spec_fx_add(spec_fx_half(b.size.y), 1))
    } else {
        mirrored
    };
    BodyView {
        position_current: base.spec_sub(Vec2D { x: 0, y: spec_fx_half(b.size.y) }),
        position_potential: Vec2D { x: b.position_potential.x, y: landed },
        velocity: Vec2D { x: b.velocity.x, y: spec_fx_neg(b.velocity.y) },
        ..b
    }
}

/// All coordinates the reflection walk touches stay far from saturation.
pub open spec fn within_world(b: BodyView, plt: Vec2D, prb: Vec2D) -> bool {
    &&& crate::fx::abs1(plt.x as int) <= WORLD_LIMIT
    &&& crate::fx::abs1(plt.y as int) <= WORLD_LIMIT
    &&& crate::fx::abs1(prb.x as int) <= WORLD_LIMIT
    &&& crate::fx::abs1(prb.y as int) <= WORLD_LIMIT
    &&& 0 <= b.size.x <= WORLD_LIMIT
    &&& 0 <= b.size.y <= WORLD_LIMIT
    &&& crate::fx::abs1(b.position_potential.x as int) <= 4 * WORLD_LIMIT
    &&& crate::fx::abs1(b.position_potential.y as int) <= 4 * WORLD_LIMIT
    &&& crate::fx::abs1(b.position_current.x as int) <= 4 * WORLD_LIMIT
    &&& crate::fx::abs1(b.position_current.y as int) <= 4 * WORLD_LIMIT
    &&& crate::fx::abs1(b.velocity.x as int) <= WORLD_LIMIT
    &&& crate::fx::abs1(b.velocity.y as int) <= WORLD_LIMIT
}

/// The capability set of any body with spatial extent that takes part
/// in collision queries.
pub trait ObjectInterface: Sized {
    /// The observable state of the body.
    spec fn obj(&self) -> BodyView;

    /// How many corners this shape's vertex buffers carry.
    spec fn vertex_count(&self) -> int;

    /// The shape-specific rule coupling inertia to mass and extent,
    /// preserved by every mutation of either input.
    spec fn inertia_for(mass: i64, size: Vec2D) -> i64;

    /// The vertex buffers always hold exactly `vertex_count` corners,
    /// and at least one.
    proof fn lemma_wf(&self)
        ensures
            self.obj().vertex_potential.len() == self.vertex_count(),
            self.obj().vertex_current.len() == self.vertex_count(),
            self.vertex_count() >= 1,
    ;

    /// Replace the committed position.
    fn set_current_position(&mut self, position: Vec2D)
        ensures
            final(self).obj() == (BodyView { position_current: position, ..old(self).obj() }),
    ;

    /// Replace the tentative position.
    fn set_potential_position(&mut self, position: Vec2D)
        ensures
            final(self).obj() == (BodyView { position_potential: position, ..old(self).obj() }),
    ;

    /// The committed position.
    fn get_current_position(&self) -> (r: Vec2D)
        ensures
            r == self.obj().position_current,
    ;

    /// The tentative position.
    fn get_potential_position(&self) -> (r: Vec2D)
        ensures
            r == self.obj().position_potential,
    ;

    /// The extent vector of the shape.
    fn get_size(&self) -> (r: Vec2D)
        ensures
            r == self.obj().size,
    ;

    /// The world-space corners of the tentative state.
    fn get_potential_vertex(&self) -> (r: Vec<Vec2D>)
        ensures
            r@ == self.obj().vertex_potential,
    ;

    /// The unit vector of the shape's primary axis.
    fn get_direction(&self) -> (r: Vec2D)
        ensures
            r == self.obj().direction,
    ;

    /// Replace the tentative corners.
    fn set_potential_vertex(&mut self, vertex: Vec<Vec2D>)
        requires
            vertex@.len() == old(self).vertex_count(),
        ensures
            final(self).obj() == (BodyView { vertex_potential: vertex@, ..old(self).obj() }),
    ;

    /// Replace the extent; the inertia follows its coupling rule.
    fn set_size(&mut self, size: Vec2D)
        ensures
            final(self).obj() == (BodyView {
                size,
                inertia: Self::inertia_for(old(self).obj().mass, size),
                ..old(self).obj()
            }),
    ;

    /// Replace the primary axis.
    fn set_direction(&mut self, direction: Vec2D)
        ensures
            final(self).obj() == (BodyView { direction, ..old(self).obj() }),
    ;

    /// Replace the mass; the inertia follows its coupling rule.
    fn set_mass(&mut self, mass: i64)
        ensures
            final(self).obj() == (BodyView {
                mass,
                inertia: Self::inertia_for(mass, old(self).obj().size),
                ..old(self).obj()
            }),
    ;

    /// The mass.
    fn get_mass(&self) -> (r: i64)
        ensures
            r == self.obj().mass,
    ;

    /// `1 / mass` in fixed point, with zero for an immovable body.
    fn get_inversion_mass(&self) -> (r: i64)
        ensures
            r == spec_inverse_of(self.obj().mass),
    ;

    /// The rotational inertia.
    fn get_inertia(&self) -> (r: i64)
        ensures
            r == self.obj().inertia,
    ;

    /// `1 / inertia` in fixed point, with zero for a body no impulse
    /// can spin.
    fn get_inversion_inertia(&self) -> (r: i64)
        ensures
            r == spec_inverse_of(self.obj().inertia),
    ;

    /// Replace the restitution coefficient.
    fn set_elasticity(&mut self, elasticity: i64)
        ensures
            final(self).obj() == (BodyView { elasticity, ..old(self).obj() }),
    ;

    /// The restitution coefficient.
    fn get_elasticity(&self) -> (r: i64)
        ensures
            r == self.obj().elasticity,
    ;

    /// Replace the linear velocity.
    fn set_velocity(&mut self, velocity: Vec2D)
        ensures
            final(self).obj() == (BodyView { velocity, ..old(self).obj() }),
    ;

    /// The linear velocity.
    fn get_velocity(&self) -> (r: Vec2D)
        ensures
            r == self.obj().velocity,
    ;

    /// Replace the friction coefficient.
    fn set_friction(&mut self, friction: i64)
        ensures
            final(self).obj() == (BodyView { friction, ..old(self).obj() }),
    ;

    /// The friction coefficient.
    fn get_friction(&self) -> (r: i64)
        ensures
            r == self.obj().friction,
    ;

    /// Replace the orientation angle.
    fn set_angle(&mut self, angle: Angle)
        ensures
            final(self).obj() == (BodyView { angle: angle.spec_radian(), ..old(self).obj() }),
    ;

    /// The orientation angle.
    fn get_angle(&self) -> (r: Angle)
        ensures
            r.spec_radian() == self.obj().angle,
    ;

    /// Replace the angular velocity.
    fn set_angle_velocity(&mut self, angle_velocity: i64)
        ensures
            final(self).obj() == (BodyView { angle_velocity, ..old(self).obj() }),
    ;

    /// The angular velocity.
    fn get_angle_velocity(&self) -> (r: i64)
        ensures
            r == self.obj().angle_velocity,
    ;

    /// Replace the angular friction coefficient.
    fn set_angle_friction(&mut self, angle_friction: i64)
        ensures
            final(self).obj() == (BodyView { angle_friction, ..old(self).obj() }),
    ;

    /// The angular friction coefficient.
    fn get_angle_friction(&self) -> (r: i64)
        ensures
            r == self.obj().angle_friction,
    ;
}

/// The refinement for dynamic bodies: the per-tick operations that move
/// a body, test it against others, and commit its tentative state.
pub trait MoveInterface: ObjectInterface {
    /// The shape-specific refresh of the tentative corners from the
    /// tentative position, primary direction and extent.
    spec fn refreshed_vertex(b: BodyView) -> Seq<Vec2D>;

    /// One explicit-Euler integration step over `time` ticks of a
    /// second: the tentative position advances by `velocity * time`.
    fn tracer(&mut self, time: i64)
        ensures
            final(self).obj() == tracer_view(old(self).obj(), time),
    ;

    /// Fold the tentative position back between the boundary corners
    /// `plt` (top left) and `prb` (bottom right) by repeated reflection
    /// about each violated wall — x walls first, low before high —
    /// reversing the matching velocity component at every reflection and
    /// moving the committed position to where the motion crossed the
    /// wall. This is the standalone boundary policy, the alternative to
    /// modeling borders as collidable lines; a world uses one of the
    /// two, never both. A body already inside comes out unchanged; one
    /// that a single reflection brings inside comes out exactly as the
    /// matching [`reflect_low_x_view`] family member states; in every
    /// case the body ends strictly inside the boundary, with each
    /// velocity component either kept or reversed and everything else
    /// untouched.
    fn run_with_boundaries(&mut self, plt: &Vec2D, prb: &Vec2D)
        requires
            boundary_room(*plt, *prb, old(self).obj().size),
            within_world(old(self).obj(), *plt, *prb),
        ensures
            in_boundaries(final(self).obj(), *plt, *prb),
            in_boundaries(old(self).obj(), *plt, *prb) ==> final(self).obj() == old(self).obj(),
            beyond_low_x(old(self).obj(), *plt) && in_boundaries(
                reflect_low_x_view(old(self).obj(), *plt, *prb),
                *plt,
                *prb,
            ) ==> final(self).obj() == reflect_low_x_view(old(self).obj(), *plt, *prb),
            !beyond_low_x(old(self).obj(), *plt) && beyond_high_x(old(self).obj(), *prb)
                && in_boundaries(reflect_high_x_view(old(self).obj(), *plt, *prb), *plt, *prb)
                ==> final(self).obj() == reflect_high_x_view(old(self).obj(), *plt, *prb),
            !beyond_low_x(old(self).obj(), *plt) && !beyond_high_x(old(self).obj(), *prb)
                && beyond_low_y(old(self).obj(), *plt) && in_boundaries(
                reflect_low_y_view(old(self).obj(), *plt, *prb),
                *plt,
                *prb,
            ) ==> final(self).obj() == reflect_low_y_view(old(self).obj(), *plt, *prb),
            !beyond_low_x(old(self).obj(), *plt) && !beyond_high_x(old(self).obj(), *prb)
                && !beyond_low_y(old(self).obj(), *plt) && beyond_high_y(old(self).obj(), *prb)
                && in_boundaries(reflect_high_y_view(old(self).obj(), *plt, *prb), *plt, *prb)
                ==> final(self).obj() == reflect_high_y_view(old(self).obj(), *plt, *prb),
            final(self).obj().velocity.x == old(self).obj().velocity.x
                || final(self).obj().velocity.x == crate::fx::spec_fx_neg(
                old(self).obj().velocity.x,
            ),
            final(self).obj().velocity.y == old(self).obj().velocity.y
                || final(self).obj().velocity.y == crate::fx::spec_fx_neg(
                old(self).obj().velocity.y,
            ),
            final(self).obj() == (BodyView {
                position_current: final(self).obj().position_current,
                position_potential: final(self).obj().position_potential,
                velocity: final(self).obj().velocity,
                ..old(self).obj()
            }),
    ;

    /// The commit step of a tick: refresh the tentative corners from
    /// the (possibly resolver-corrected) tentative position, then make
    /// the tentative position and corners current.
    fn run(&mut self, time: i64)
        ensures
            final(self).obj() == commit_view(
                old(self).obj(),
                Self::refreshed_vertex(old(self).obj()),
            ),
    ;

    /// The circumscribed-circle broad-phase pre-test against another
    /// body.
    fn intersection_circumscribed_circles<O: ObjectInterface>(&self, object: &O) -> (r: bool)
        ensures
            r == circles_overlap(self.obj(), object.obj()),
    ;

    /// The axis-aligned box pre-test against a box given by center and
    /// extent.
    fn check_collision(&self, position: Vec2D, size: Vec2D) -> (r: bool)
        ensures
            r == aabb_overlap(self.obj(), position, size),
    ;

    /// The separating-axis narrow phase against another body: `None`
    /// when some candidate axis separates the tentative states, else
    /// the minimum penetration, the signed separating axis, and the
    /// contact vertex.
    fn sat<O: ObjectInterface>(&self, object: &O) -> (r: Option<(i64, Vec2D, Vec2D)>)
        ensures
            r == crate::sat::sat_views(self.obj(), object.obj()),
    ;
}

/// Conversion of any body capability to the plain object capability.
/// Bodies are dispatched statically here, so the conversion is the
/// identity on the value itself.
pub trait AsObject: Sized {
    /// The same body, seen through its object capability.
    fn as_object(&self) -> (r: &Self)
        ensures
            r == self,
    ;
}

impl<T: ObjectInterface> AsObject for T {
    fn as_object(&self) -> (r: &Self) {
        self
    }
}

} // verus!

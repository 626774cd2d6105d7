//! Boundary lines: static two-point segments.
//!
//! A [`Line`] is the degenerate rectangle of the shape set: two corners,
//! an extent of `(length, 0)`, and the full kinematic attribute record so
//! that the resolver can treat it like any other body. World borders are
//! composed of four such segments, which makes the boundary just another
//! collidable shape.

use vstd::prelude::*;

use crate::angle::Angle;
use crate::fx::{
    fx_add, fx_div, fx_half, fx_mul, spec_fx_add, spec_fx_div, spec_fx_half, spec_fx_mul,
};
use crate::traits::{BodyView, ObjectInterface};
use crate::vec2d::Vec2D;

verus! {

/// A static two-point segment.
#[derive(Clone, Copy, Debug)]
pub struct Line {
    position_current: Vec2D,
    position_potential: Vec2D,
    vertex_current: [Vec2D; 2],
    vertex_potential: [Vec2D; 2],
    size: Vec2D,
    direction: Vec2D,
    mass: i64,
    inertia: i64,
    elasticity: i64,
    velocity: Vec2D,
    friction: i64,
    angle: Angle,
    angle_velocity: i64,
    angle_friction: i64,
}

/// `mass * length^2 / 12`, the inertia of a thin rod about its middle;
/// `12582912` is `12 * FX_ONE`.
pub open spec fn line_inertia(mass: i64, size: Vec2D) -> i64 {
    spec_fx_div(spec_fx_mul(mass, spec_fx_mul(size.x, size.x)), 12582912)
}

/// The state a fresh line has: both vertex buffers hold the two end
/// points, the direction is the unit vector from the first toward the
/// second, both position buffers hold the midpoint, and the extent is
/// `(distance between the ends, 0)`.
pub open spec fn line_view(
    first_point: Vec2D,
    second_point: Vec2D,
    mass: i64,
    elasticity: i64,
    velocity: Vec2D,
    friction: i64,
    angle_velocity: i64,
    angle_friction: i64,
) -> BodyView {
    let position = Vec2D {
        x: spec_fx_half(spec_fx_add(first_point.x, second_point.x)),
        y: spec_fx_half(spec_fx_add(first_point.y, second_point.y)),
    };
    let size = Vec2D { x: first_point.spec_len_vector(&second_point), y: 0 };
    BodyView {
        position_current: position,
        position_potential: position,
        vertex_current: seq![first_point, second_point],
        vertex_potential: seq![first_point, second_point],
        size,
        direction: second_point.spec_sub(first_point).spec_unit(),
        mass,
        inertia: line_inertia(mass, size),
        elasticity,
        velocity,
        friction,
        angle: 0,
        angle_velocity,
        angle_friction,
    }
}

impl Line {
    /// A segment from `first_point` to `second_point` with the given
    /// kinematic attributes; see [`line_view`] for the exact state.
    pub fn new(
        first_point: Vec2D,
        second_point: Vec2D,
        mass: i64,
        elasticity: i64,
        velocity: Vec2D,
        friction: i64,
        angle_velocity: i64,
        angle_friction: i64,
    ) -> (r: Line)
        ensures
            r.obj() == line_view(
                first_point,
                second_point,
                mass,
                elasticity,
                velocity,
                friction,
                angle_velocity,
                angle_friction,
            ),
    {
        let vertex = [first_point, second_point];
        let direction = second_point.sub(first_point).unit();
        let position = Vec2D::new(
            fx_half(fx_add(first_point.x, second_point.x)),
            fx_half(fx_add(first_point.y, second_point.y)),
        );
        let size = Vec2D::new(first_point.len_vector(&second_point), 0);
        let inertia = fx_div(fx_mul(mass, fx_mul(size.x, size.x)), 12582912);
        let angle = Angle::default();
        let r = Line {
            position_current: position,
            position_potential: position,
            vertex_current: vertex,
            vertex_potential: vertex,
            size,
            direction,
            mass,
            inertia,
            elasticity,
            velocity,
            friction,
            angle,
            angle_velocity,
            angle_friction,
        };
        proof {
            assert(vertex@ =~= seq![first_point, second_point]);
        }
        r
    }
}

impl ObjectInterface for Line {
    closed spec fn obj(&self) -> BodyView {
        BodyView {
            position_current: self.position_current,
            position_potential: self.position_potential,
            vertex_current: self.vertex_current@,
            vertex_potential: self.vertex_potential@,
            size: self.size,
            direction: self.direction,
            mass: self.mass,
            inertia: self.inertia,
            elasticity: self.elasticity,
            velocity: self.velocity,
            friction: self.friction,
            angle: self.angle.spec_radian(),
            angle_velocity: self.angle_velocity,
            angle_friction: self.angle_friction,
        }
    }

    closed spec fn vertex_count(&self) -> int {
        2
    }

    open spec fn inertia_for(mass: i64, size: Vec2D) -> i64 {
        line_inertia(mass, size)
    }

    proof fn lemma_wf(&self) {
    }

    fn set_current_position(&mut self, position: Vec2D) {
        self.position_current = position;
    }

    fn set_potential_position(&mut self, position: Vec2D) {
        self.position_potential = position;
    }

    fn get_current_position(&self) -> (r: Vec2D) {
        self.position_current
    }

    fn get_potential_position(&self) -> (r: Vec2D) {
        self.position_potential
    }

    fn get_size(&self) -> (r: Vec2D) {
        self.size
    }

    fn get_potential_vertex(&self) -> (r: Vec<Vec2D>) {
        let mut vertex = Vec::new();
        vertex.push(self.vertex_potential[0]);
        vertex.push(self.vertex_potential[1]);
        proof {
            assert(vertex@ =~= self.vertex_potential@);
        }
        vertex
    }

    fn get_direction(&self) -> (r: Vec2D) {
        self.direction
    }

    fn set_potential_vertex(&mut self, vertex: Vec<Vec2D>) {
        self.vertex_potential = [vertex[0], vertex[1]];
        proof {
            assert(self.vertex_potential@ =~= vertex@);
        }
    }

    fn set_size(&mut self, size: Vec2D) {
        self.size = size;
        self.inertia = fx_div(fx_mul(self.mass, fx_mul(size.x, size.x)), 12582912);
    }

    fn set_direction(&mut self, direction: Vec2D) {
        self.direction = direction;
    }

    fn set_mass(&mut self, mass: i64) {
        self.mass = mass;
        self.inertia = fx_div(fx_mul(mass, fx_mul(self.size.x, self.size.x)), 12582912);
    }

    fn get_mass(&self) -> (r: i64) {
        self.mass
    }

    fn get_inversion_mass(&self) -> (r: i64) {
        if self.mass == 0 {
            0
        } else {
            fx_div(crate::fx::FX_ONE, self.mass)
        }
    }

    fn get_inertia(&self) -> (r: i64) {
        self.inertia
    }

    fn get_inversion_inertia(&self) -> (r: i64) {
        if self.inertia == 0 {
            0
        } else {
            fx_div(crate::fx::FX_ONE, self.inertia)
        }
    }

    fn set_elasticity(&mut self, elasticity: i64) {
        self.elasticity = elasticity;
    }

    fn get_elasticity(&self) -> (r: i64) {
        self.elasticity
    }

    fn set_velocity(&mut self, velocity: Vec2D) {
        self.velocity = velocity;
    }

    fn get_velocity(&self) -> (r: Vec2D) {
        self.velocity
    }

    fn set_friction(&mut self, friction: i64) {
        self.friction = friction;
    }

    fn get_friction(&self) -> (r: i64) {
        self.friction
    }

    fn set_angle(&mut self, angle: Angle) {
        self.angle = angle;
    }

    fn get_angle(&self) -> (r: Angle) {
        self.angle
    }

    fn set_angle_velocity(&mut self, angle_velocity: i64) {
        self.angle_velocity = angle_velocity;
    }

    fn get_angle_velocity(&self) -> (r: i64) {
        self.angle_velocity
    }

    fn set_angle_friction(&mut self, angle_friction: i64) {
        self.angle_friction = angle_friction;
    }

    fn get_angle_friction(&self) -> (r: i64) {
        self.angle_friction
    }
}

} // verus!

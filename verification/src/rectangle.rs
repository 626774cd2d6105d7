//! Rectangles: the movable body of the shape set.
//!
//! A rectangle is built from two corner points of one edge and a width:
//! its extent is `(width, length-along-direction)`, its four world-space
//! corners are `position ± direction * size.y/2 ± normal * size.x/2` for
//! all four sign combinations, and its inertia follows
//! `mass * (size.x^2 + size.y^2) / 12` on every mutation of mass or
//! extent. It carries the whole dynamic attribute set and implements the
//! per-tick operations of [`MoveInterface`], including the
//! separating-axis narrow phase.

use vstd::pervasive::VecAdditionalExecFns;
use vstd::prelude::*;

use crate::angle::Angle;
use crate::fx::{
    abs1, clamp64, fx_add, fx_div, fx_half, fx_len, fx_mul, fx_neg, fx_sub, lemma_fx_mul_neg_one,
    spec_fx_add, spec_fx_div, spec_fx_half, spec_fx_mul, spec_fx_neg, FX_ONE,
};
use crate::sat::{
    axis_oriented, best_idx, best_idx_upto, correction, flip_contained, overlap_adj, overlap_raw,
    projection_on_axis, sat_axes, separated, spec_neg_v2,
};
use crate::traits::{
    beyond_high_x, beyond_high_y, beyond_low_x, beyond_low_y, in_boundaries, reflect_high_x_view,
    reflect_high_y_view, reflect_low_x_view, reflect_low_y_view, BodyView, MoveInterface,
    ObjectInterface,
};
use crate::vec2d::Vec2D;

verus! {

/// A movable rectangular body.
#[derive(Clone, Copy, Debug)]
pub struct Rectangle {
    position_current: Vec2D,
    position_potential: Vec2D,
    vertex_current: [Vec2D; 4],
    vertex_potential: [Vec2D; 4],
    size: Vec2D,
    direction: Vec2D,
    mass: i64,
    inertia: i64,
    elasticity: i64,
    velocity: Vec2D,
    friction: i64,
    angle: Angle,
    angle_velocity: i64,
    angle_friction: i64,
}

/// `mass * (size.x^2 + size.y^2) / 12`, the inertia of a rectangular
/// plate about its center; `12582912` is `12 * FX_ONE`.
pub open spec fn rect_inertia(mass: i64, size: Vec2D) -> i64 {
    spec_fx_div(
        spec_fx_mul(mass, spec_fx_add(spec_fx_mul(size.x, size.x), spec_fx_mul(size.y, size.y))),
        12582912,
    )
}

/// The four corners of a rectangle at `position` with primary axis
/// `direction` and extent `size`: `position ± direction * size.y/2
/// ± normal * size.x/2`, in a fixed sign order shared by construction
/// and the per-tick refresh.
pub open spec fn rect_vertices(position: Vec2D, direction: Vec2D, size: Vec2D) -> Seq<Vec2D> {
    let hy = spec_fx_half(size.y);
    let hx = spec_fx_half(size.x);
    let n = direction.spec_normal();
    seq![
        position.spec_add(direction.spec_mul_n(spec_fx_neg(hy))).spec_add(
            n.spec_mul_n(spec_fx_neg(hx)),
        ),
        position.spec_add(direction.spec_mul_n(spec_fx_neg(hy))).spec_add(n.spec_mul_n(hx)),
        position.spec_add(direction.spec_mul_n(hy)).spec_add(n.spec_mul_n(spec_fx_neg(hx))),
        position.spec_add(direction.spec_mul_n(hy)).spec_add(n.spec_mul_n(hx)),
    ]
}

/// The state a fresh rectangle has: the edge from `first_point` to
/// `second_point` fixes direction and length, `width` the other extent;
/// the center sits half a length along the direction and half a width
/// against its normal from `first_point`; both vertex buffers hold the
/// corners of that center.
pub open spec fn rect_view(
    first_point: Vec2D,
    second_point: Vec2D,
    width: i64,
    mass: i64,
    elasticity: i64,
    velocity: Vec2D,
    friction: i64,
    angle_velocity: i64,
    angle_friction: i64,
) -> BodyView {
    let edge = second_point.spec_sub(first_point);
    let size = Vec2D { x: width, y: edge.spec_len_vector(&(Vec2D { x: 0, y: 0 })) };
    let direction = edge.spec_unit();
    let position = first_point.spec_add(direction.spec_mul_n(spec_fx_half(size.y))).spec_add(
        direction.spec_normal().spec_mul_n(spec_fx_neg(spec_fx_half(size.x))),
    );
    BodyView {
        position_current: position,
        position_potential: position,
        vertex_current: rect_vertices(position, direction, size),
        vertex_potential: rect_vertices(position, direction, size),
        size,
        direction,
        mass,
        inertia: rect_inertia(mass, size),
        elasticity,
        velocity,
        friction,
        angle: 0,
        angle_velocity,
        angle_friction,
    }
}

/// The four corners of [`rect_vertices`], computed.
fn compute_vertices(position: Vec2D, direction: Vec2D, size: Vec2D) -> (r: [Vec2D; 4])
    ensures
        r@ == rect_vertices(position, direction, size),
{
    let hy = fx_half(size.y);
    let hx = fx_half(size.x);
    let n = direction.normal();
    let r = [
        position.add(direction.mul_n(fx_neg(hy))).add(n.mul_n(fx_neg(hx))),
        position.add(direction.mul_n(fx_neg(hy))).add(n.mul_n(hx)),
        position.add(direction.mul_n(hy)).add(n.mul_n(fx_neg(hx))),
        position.add(direction.mul_n(hy)).add(n.mul_n(hx)),
    ];
    proof {
        assert(r@ =~= rect_vertices(position, direction, size));
    }
    r
}

impl Rectangle {
    /// A rectangle over the edge from `first_point` to `second_point`
    /// with the given width and kinematic attributes; see [`rect_view`]
    /// for the exact state.
    pub fn new(
        first_point: Vec2D,
        second_point: Vec2D,
        width: i64,
        mass: i64,
        elasticity: i64,
        velocity: Vec2D,
        friction: i64,
        angle_velocity: i64,
        angle_friction: i64,
    ) -> (r: Rectangle)
        ensures
            r.obj() == rect_view(
                first_point,
                second_point,
                width,
                mass,
                elasticity,
                velocity,
                friction,
                angle_velocity,
                angle_friction,
            ),
    {
        let edge = second_point.sub(first_point);
        let size = Vec2D::new(width, edge.len_vector(&Vec2D::new(0, 0)));
        let direction = edge.unit();
        let position = first_point.add(direction.mul_n(fx_half(size.y))).add(
            direction.normal().mul_n(fx_neg(fx_half(size.x))),
        );
        let vertex = compute_vertices(position, direction, size);
        let inertia = fx_div(
            fx_mul(mass, fx_add(fx_mul(size.x, size.x), fx_mul(size.y, size.y))),
            12582912,
        );
        let angle = Angle::default();
        Rectangle {
            position_current: position,
            position_potential: position,
            vertex_current: vertex,
            vertex_potential: vertex,
            size,
            direction,
            mass,
            inertia,
            elasticity,
            velocity,
            friction,
            angle,
            angle_velocity,
            angle_friction,
        }
    }
}

impl Default for Rectangle {
    /// A unit-mass-scale sample body: a 20-by-20 square at the origin
    /// moving along the x axis, mildly damped.
    fn default() -> (r: Self)
        ensures
            r.obj() == rect_view(
                Vec2D { x: 0, y: 0 },
                Vec2D { x: 0, y: 20971520 },
                20971520,
                10485760,
                FX_ONE,
                Vec2D { x: 104857600, y: 0 },
                10486,
                0,
                10486,
            ),
    {
        Rectangle::new(
            Vec2D::new(0, 0),
            Vec2D::new(0, 20 * FX_ONE),
            20 * FX_ONE,
            10 * FX_ONE,
            FX_ONE,
            Vec2D::new(100 * FX_ONE, 0),
            10486,
            0,
            10486,
        )
    }
}

impl ObjectInterface for Rectangle {
    closed spec fn obj(&self) -> BodyView {
        BodyView {
            position_current: self.position_current,
            position_potential: self.position_potential,
            vertex_current: self.vertex_current@,
            vertex_potential: self.vertex_potential@,
            size: self.size,
            direction: self.direction,
            mass: self.mass,
            inertia: self.inertia,
            elasticity: self.elasticity,
            velocity: self.velocity,
            friction: self.friction,
            angle: self.angle.spec_radian(),
            angle_velocity: self.angle_velocity,
            angle_friction: self.angle_friction,
        }
    }

    closed spec fn vertex_count(&self) -> int {
        4
    }

    open spec fn inertia_for(mass: i64, size: Vec2D) -> i64 {
        rect_inertia(mass, size)
    }

    proof fn lemma_wf(&self) {
    }

    fn set_current_position(&mut self, position: Vec2D) {
        self.position_current = position;
    }

    fn set_potential_position(&mut self, position: Vec2D) {
        self.position_potential = position;
    }

    fn get_current_position(&self) -> (r: Vec2D) {
        self.position_current
    }

    fn get_potential_position(&self) -> (r: Vec2D) {
        self.position_potential
    }

    fn get_size(&self) -> (r: Vec2D) {
        self.size
    }

    fn get_potential_vertex(&self) -> (r: Vec<Vec2D>) {
        let mut vertex = Vec::new();
        vertex.push(self.vertex_potential[0]);
        vertex.push(self.vertex_potential[1]);
        vertex.push(self.vertex_potential[2]);
        vertex.push(self.vertex_potential[3]);
        proof {
            assert(vertex@ =~= self.vertex_potential@);
        }
        vertex
    }

    fn get_direction(&self) -> (r: Vec2D) {
        self.direction
    }

    fn set_potential_vertex(&mut self, vertex: Vec<Vec2D>) {
        self.vertex_potential = [vertex[0], vertex[1], vertex[2], vertex[3]];
        proof {
            assert(self.vertex_potential@ =~= vertex@);
        }
    }

    fn set_size(&mut self, size: Vec2D) {
        self.size = size;
        self.inertia = fx_div(
            fx_mul(self.mass, fx_add(fx_mul(size.x, size.x), fx_mul(size.y, size.y))),
            12582912,
        );
    }

    fn set_direction(&mut self, direction: Vec2D) {
        self.direction = direction;
    }

    fn set_mass(&mut self, mass: i64) {
        self.mass = mass;
        self.inertia = fx_div(
            fx_mul(mass, fx_add(fx_mul(self.size.x, self.size.x), fx_mul(self.size.y, self.size.y))),
            12582912,
        );
    }

    fn get_mass(&self) -> (r: i64) {
        self.mass
    }

    fn get_inversion_mass(&self) -> (r: i64) {
        if self.mass == 0 {
            0
        } else {
            fx_div(FX_ONE, self.mass)
        }
    }

    fn get_inertia(&self) -> (r: i64) {
        self.inertia
    }

    fn get_inversion_inertia(&self) -> (r: i64) {
        if self.inertia == 0 {
            0
        } else {
            fx_div(FX_ONE, self.inertia)
        }
    }

    fn set_elasticity(&mut self, elasticity: i64) {
        self.elasticity = elasticity;
    }

    fn get_elasticity(&self) -> (r: i64) {
        self.elasticity
    }

    fn set_velocity(&mut self, velocity: Vec2D) {
        self.velocity = velocity;
    }

    fn get_velocity(&self) -> (r: Vec2D) {
        self.velocity
    }

    fn set_friction(&mut self, friction: i64) {
        self.friction = friction;
    }

    fn get_friction(&self) -> (r: i64) {
        self.friction
    }

    fn set_angle(&mut self, angle: Angle) {
        self.angle = angle;
    }

    fn get_angle(&self) -> (r: Angle) {
        self.angle
    }

    fn set_angle_velocity(&mut self, angle_velocity: i64) {
        self.angle_velocity = angle_velocity;
    }

    fn get_angle_velocity(&self) -> (r: i64) {
        self.angle_velocity
    }

    fn set_angle_friction(&mut self, angle_friction: i64) {
        self.angle_friction = angle_friction;
    }

    fn get_angle_friction(&self) -> (r: i64) {
        self.angle_friction
    }
}

/// How far a coordinate sits below the inner low wall.
spec fn out_low(x: int, low: int) -> int {
    if x < low {
        low - x
    } else {
        0
    }
}

/// How far a coordinate sits at or beyond the inner high wall.
spec fn out_high(x: int, high: int) -> int {
    if x >= high {
        x - high + 1
    } else {
        0
    }
}

/// How far a coordinate is from the half-open band `[low, high)`: the
/// amount a reflection walk still has to fold away.
spec fn out_amount(x: int, low: int, high: int) -> int {
    out_low(x, low) + out_high(x, high)
}

/// Whether the coordinate violates the low wall: a low-side fold can
/// leave the distance unchanged but always clears this flag, so the
/// pair (distance, flags) shrinks lexicographically at every fold.
spec fn low_flag(x: int, low: int) -> int {
    if x < low {
        1
    } else {
        0
    }
}

impl MoveInterface for Rectangle {
    open spec fn refreshed_vertex(b: BodyView) -> Seq<Vec2D> {
        rect_vertices(b.position_potential, b.direction, b.size)
    }

    #[verifier::rlimit(100)]
    fn run_with_boundaries(&mut self, plt: &Vec2D, prb: &Vec2D) {
        let ghost b0 = self.obj();
        let ghost view_low_x = reflect_low_x_view(b0, *plt, *prb);
        let ghost view_high_x = reflect_high_x_view(b0, *plt, *prb);
        let ghost view_low_y = reflect_low_y_view(b0, *plt, *prb);
        let ghost view_high_y = reflect_high_y_view(b0, *plt, *prb);
        let hx = fx_half(self.size.x);
        let hy = fx_half(self.size.y);
        let ghost lx = plt.x as int + hx as int;
        let ghost rx = prb.x as int - hx as int;
        let ghost ly = plt.y as int + hy as int;
        let ghost ry = prb.y as int - hy as int;
        proof {
            vstd::arithmetic::div_mod::lemma_fundamental_div_mod(b0.size.x as int, 2);
            vstd::arithmetic::div_mod::lemma_fundamental_div_mod(b0.size.y as int, 2);
        }
        let ghost out0 = out_amount(b0.position_potential.x as int, lx, rx) + out_amount(
            b0.position_potential.y as int,
            ly,
            ry,
        );
        while plt.x > fx_sub(self.position_potential.x, hx) || fx_add(self.position_potential.x, hx)
            >= prb.x || plt.y > fx_sub(self.position_potential.y, hy) || fx_add(
            self.position_potential.y,
            hy,
        ) >= prb.y
            invariant
                self.obj() == (BodyView {
                    position_current: self.obj().position_current,
                    position_potential: self.obj().position_potential,
                    velocity: self.obj().velocity,
                    ..b0
                }),
                self.obj().velocity.x == b0.velocity.x || self.obj().velocity.x == spec_fx_neg(
                    b0.velocity.x,
                ),
                self.obj().velocity.y == b0.velocity.y || self.obj().velocity.y == spec_fx_neg(
                    b0.velocity.y,
                ),
                abs1(b0.velocity.x as int) <= crate::traits::WORLD_LIMIT,
                abs1(b0.velocity.y as int) <= crate::traits::WORLD_LIMIT,
                abs1(plt.x as int) <= crate::traits::WORLD_LIMIT,
                abs1(plt.y as int) <= crate::traits::WORLD_LIMIT,
                abs1(prb.x as int) <= crate::traits::WORLD_LIMIT,
                abs1(prb.y as int) <= crate::traits::WORLD_LIMIT,
                0 <= b0.size.x <= crate::traits::WORLD_LIMIT,
                0 <= b0.size.y <= crate::traits::WORLD_LIMIT,
                hx == spec_fx_half(b0.size.x),
                hy == spec_fx_half(b0.size.y),
                b0.size.x == 2 * (hx as int) + (b0.size.x as int) % 2,
                b0.size.y == 2 * (hy as int) + (b0.size.y as int) % 2,
                lx == plt.x as int + hx as int,
                rx == prb.x as int - hx as int,
                ly == plt.y as int + hy as int,
                ry == prb.y as int - hy as int,
                lx + 1 < rx,
                ly + 1 < ry,
                0 <= out0 <= 13 * crate::traits::WORLD_LIMIT,
                out_amount(self.position_potential.x as int, lx, rx) + out_amount(
                    self.position_potential.y as int,
                    ly,
                    ry,
                ) <= out0,
                abs1(self.position_potential.x as int) <= 2 * crate::traits::WORLD_LIMIT + out0,
                abs1(self.position_potential.y as int) <= 2 * crate::traits::WORLD_LIMIT + out0,
                view_low_x == reflect_low_x_view(b0, *plt, *prb),
                view_high_x == reflect_high_x_view(b0, *plt, *prb),
                view_low_y == reflect_low_y_view(b0, *plt, *prb),
                view_high_y == reflect_high_y_view(b0, *plt, *prb),
                in_boundaries(b0, *plt, *prb) ==> self.obj() == b0,
                beyond_low_x(b0, *plt) && in_boundaries(view_low_x, *plt, *prb) ==> (self.obj()
                    == b0 || self.obj() == view_low_x),
                !beyond_low_x(b0, *plt) && beyond_high_x(b0, *prb) && in_boundaries(
                    view_high_x,
                    *plt,
                    *prb,
                ) ==> (self.obj() == b0 || self.obj() == view_high_x),
                !beyond_low_x(b0, *plt) && !beyond_high_x(b0, *prb) && beyond_low_y(b0, *plt)
                    && in_boundaries(view_low_y, *plt, *prb) ==> (self.obj() == b0 || self.obj()
                    == view_low_y),
                !beyond_low_x(b0, *plt) && !beyond_high_x(b0, *prb) && !beyond_low_y(b0, *plt)
                    && beyond_high_y(b0, *prb) && in_boundaries(view_high_y, *plt, *prb) ==> (
                self.obj() == b0 || self.obj() == view_high_y),
            decreases
                out_amount(self.position_potential.x as int, lx, rx) + out_amount(
                    self.position_potential.y as int,
                    ly,
                    ry,
                ),
                low_flag(self.position_potential.x as int, lx) + low_flag(
                    self.position_potential.y as int,
                    ly,
                ),
        {
            let ghost pre = self.obj();
            let position = self.position_potential;
            let over_low_x = plt.x > fx_sub(position.x, hx);
            let over_high_x = fx_add(position.x, hx) >= prb.x;
            if over_low_x || over_high_x {
                self.velocity = Vec2D::new(fx_neg(self.velocity.x), self.velocity.y);
                if over_low_x {
                    let crossing = Vec2D::cross_pointll(
                        self.position_current,
                        self.position_potential,
                        *plt,
                        Vec2D::new(plt.x, prb.y),
                    );
                    let base = match crossing {
                        Some(point) => point,
                        None => Vec2D::new(plt.x, self.position_current.y),
                    };
                    self.position_current = base.add(Vec2D::new(hx, 0));
                    let reflected = fx_sub(fx_add(plt.x, plt.x), fx_sub(position.x, self.size.x));
                    self.position_potential = Vec2D::new(reflected, position.y);
                    proof {
                        let pxo = position.x as int;
                        let pxn = self.position_potential.x as int;
                        assert(pxo < lx);
                        assert(pxn == 2 * (plt.x as int) + (b0.size.x as int) - pxo);
                        assert(out_low(pxn, lx) == 0);
                        assert(out_high(pxn, rx) <= out_low(pxo, lx));
                        assert(self.position_potential.y == position.y);
                        assert(self.obj() == reflect_low_x_view(pre, *plt, *prb));
                    }
                } else {
                    let crossing = Vec2D::cross_pointll(
                        self.position_current,
                        self.position_potential,
                        *prb,
                        Vec2D::new(prb.x, plt.y),
                    );
                    let base = match crossing {
                        Some(point) => point,
                        None => Vec2D::new(prb.x, self.position_current.y),
                    };
                    self.position_current = base.sub(Vec2D::new(hx, 0));
                    let mut reflected = fx_sub(
                        fx_add(prb.x, prb.x),
                        fx_add(position.x, self.size.x),
                    );
                    if reflected == position.x {
                        // A body dead on the wall reflects onto itself:
                        // step it one tick inside to make progress.
                        reflected = fx_sub(prb.x, fx_add(hx, 1));
                    }
                    self.position_potential = Vec2D::new(reflected, position.y);
                    proof {
                        let pxo = position.x as int;
                        let pxn = self.position_potential.x as int;
                        assert(pxo >= rx);
                        assert(pxn == 2 * (prb.x as int) - (b0.size.x as int) - pxo || pxn == rx
                            - 1);
                        assert(out_high(pxn, rx) == 0);
                        assert(out_low(pxn, lx) < out_high(pxo, rx));
                        assert(self.position_potential.y == position.y);
                        assert(self.obj() == reflect_high_x_view(pre, *plt, *prb));
                    }
                }
            } else {
                self.velocity = Vec2D::new(self.velocity.x, fx_neg(self.velocity.y));
                if plt.y > fx_sub(position.y, hy) {
                    let crossing = Vec2D::cross_pointll(
                        self.position_current,
                        self.position_potential,
                        *plt,
                        Vec2D::new(prb.x, plt.y),
                    );
                    let base = match crossing {
                        Some(point) => point,
                        None => Vec2D::new(self.position_current.x, plt.y),
                    };
                    self.position_current = base.add(Vec2D::new(0, hy));
                    let reflected = fx_sub(fx_add(plt.y, plt.y), fx_sub(position.y, self.size.y));
                    self.position_potential = Vec2D::new(position.x, reflected);
                    proof {
                        let pyo = position.y as int;
                        let pyn = self.position_potential.y as int;
                        assert(pyo < ly);
                        assert(pyn == 2 * (plt.y as int) + (b0.size.y as int) - pyo);
                        assert(out_low(pyn, ly) == 0);
                        assert(out_high(pyn, ry) <= out_low(pyo, ly));
                        assert(self.position_potential.x == position.x);
                        assert(self.obj() == reflect_low_y_view(pre, *plt, *prb));
                    }
                } else {
                    let crossing = Vec2D::cross_pointll(
                        self.position_current,
                        self.position_potential,
                        *prb,
                        Vec2D::new(plt.x, prb.y),
                    );
                    let base = match crossing {
                        Some(point) => point,
                        None => Vec2D::new(self.position_current.x, prb.y),
                    };
                    self.position_current = base.sub(Vec2D::new(0, hy));
                    let mut reflected = fx_sub(
                        fx_add(prb.y, prb.y),
                        fx_add(position.y, self.size.y),
                    );
                    if reflected == position.y {
                        // A body dead on the wall reflects onto itself:
                        // step it one tick inside to make progress.
                        reflected = fx_sub(prb.y, fx_add(hy, 1));
                    }
                    self.position_potential = Vec2D::new(position.x, reflected);
                    proof {
                        let pyo = position.y as int;
                        let pyn = self.position_potential.y as int;
                        assert(pyo >= ry);
                        assert(pyn == 2 * (prb.y as int) - (b0.size.y as int) - pyo || pyn == ry
                            - 1);
                        assert(out_high(pyn, ry) == 0);
                        assert(out_low(pyn, ly) < out_high(pyo, ry));
                        assert(self.position_potential.x == position.x);
                        assert(self.obj() == reflect_high_y_view(pre, *plt, *prb));
                    }
                }
            }
        }
    }

    fn tracer(&mut self, time: i64) {
        self.position_potential = self.position_potential.add(
            Vec2D::new(fx_mul(self.velocity.x, time), fx_mul(self.velocity.y, time)),
        );
    }

    fn run(&mut self, time: i64) {
        let vertex = compute_vertices(self.position_potential, self.direction, self.size);
        self.vertex_potential = vertex;
        self.vertex_current = vertex;
        self.position_current = self.position_potential;
    }

    fn intersection_circumscribed_circles<O: ObjectInterface>(&self, object: &O) -> (r: bool) {
        let p1 = self.get_potential_position();
        let p2 = object.get_potential_position();
        let s1 = self.get_size();
        let s2 = object.get_size();
        let r1 = fx_half(fx_len(s1.x, s1.y));
        let r2 = fx_half(fx_len(s2.x, s2.y));
        p1.len_vector(&p2) <= fx_add(r1, r2)
    }

    fn check_collision(&self, position: Vec2D, size: Vec2D) -> (r: bool) {
        let dx = self.position_potential.x as i128 - position.x as i128;
        let dx = if dx < 0 {
            -dx
        } else {
            dx
        };
        let half_x = half_trunc_wide(self.size.x as i128 + size.x as i128);
        if dx > half_x {
            return false;
        }
        let dy = self.position_potential.y as i128 - position.y as i128;
        let dy = if dy < 0 {
            -dy
        } else {
            dy
        };
        let half_y = half_trunc_wide(self.size.y as i128 + size.y as i128);
        if dy > half_y {
            return false;
        }
        true
    }

    fn sat<O: ObjectInterface>(&self, object: &O) -> (r: Option<(i64, Vec2D, Vec2D)>) {
        proof {
            self.lemma_wf();
            object.lemma_wf();
        }
        let verts1 = self.get_potential_vertex();
        let verts2 = object.get_potential_vertex();
        let d1 = self.get_direction();
        let d2 = object.get_direction();
        let ghost va = self.obj().vertex_potential;
        let ghost vb = object.obj().vertex_potential;

        let mut axes: Vec<Vec2D> = Vec::new();
        axes.push(d1.normal());
        axes.push(d1);
        axes.push(d2.normal());
        axes.push(d2);
        proof {
            assert(axes@ =~= sat_axes(d1, d2));
        }

        let mut min_overlap: Option<i128> = None;
        let mut smallest_axis = Vec2D::new(0, 0);
        let mut main_object = false;
        let mut i: usize = 0;
        while i < 4
            invariant
                verts1@ == va,
                verts2@ == vb,
                va == self.obj().vertex_potential,
                vb == object.obj().vertex_potential,
                d1 == self.obj().direction,
                d2 == object.obj().direction,
                va.len() >= 1,
                vb.len() >= 1,
                i <= 4,
                axes@.len() == 4,
                forall|j: int| i <= j < 4 ==> axes@[j] == sat_axes(d1, d2)[j],
                forall|j: int| 0 <= j < i ==> overlap_raw(sat_axes(d1, d2)[j], va, vb) > 0,
                i == 0 <==> min_overlap is None,
                i >= 1 ==> {
                    let k = best_idx_upto(va, d1, vb, d2, i as int);
                    &&& min_overlap == Some(overlap_adj(sat_axes(d1, d2)[k], va, vb) as i128)
                    &&& smallest_axis == axis_oriented(va, d1, vb, d2, k)
                    &&& main_object == (k >= 2)
                },
            decreases 4 - i,
        {
            let step = crate::sat::examine_axis(
                &mut axes,
                i,
                &verts1,
                &verts2,
                min_overlap,
                smallest_axis,
                main_object,
                Ghost(d1),
                Ghost(d2),
            );
            if step.0 {
                proof {
                    let wi = i as int;
                    assert(overlap_raw(sat_axes(d1, d2)[wi], va, vb) <= 0);
                    assert(separated(va, d1, vb, d2));
                }
                return None;
            }
            min_overlap = Some(step.1);
            smallest_axis = step.2;
            main_object = step.3;
            i = i + 1;
        }

        let ghost k = best_idx(va, d1, vb, d2);
        proof {
            assert(!separated(va, d1, vb, d2));
            crate::sat::lemma_best_idx_range(va, d1, vb, d2, 4);
            assert(overlap_raw(sat_axes(d1, d2)[k], va, vb) > 0);
            assert(correction(sat_axes(d1, d2)[k], va, vb) >= 0);
        }
        let overlap_found = match min_overlap {
            Some(j) => j,
            None => 0,
        };
        let reported: i64 = if overlap_found > i64::MAX as i128 {
            i64::MAX
        } else {
            overlap_found as i64
        };
        assert(reported == clamp64(overlap_adj(sat_axes(d1, d2)[k], va, vb)) as i64);

        let contact_vertex;
        let mut axis_out = smallest_axis;
        if main_object {
            contact_vertex = projection_on_axis(&smallest_axis, &verts1).2;
        } else {
            contact_vertex = projection_on_axis(&smallest_axis, &verts2).2;
            proof {
                lemma_fx_mul_neg_one(axis_out.x);
                lemma_fx_mul_neg_one(axis_out.y);
            }
            axis_out = axis_out.mul_n(-FX_ONE);
        }
        Some((reported, axis_out, contact_vertex))
    }
}

/// Half of a wide value, truncated toward zero.
fn half_trunc_wide(a: i128) -> (r: i128)
    requires
        a > i128::MIN,
    ensures
        r == crate::fx::trunc_div(a as int, 2),
{
    if a >= 0 {
        a / 2
    } else {
        -((-a) / 2)
    }
}

} // verus!

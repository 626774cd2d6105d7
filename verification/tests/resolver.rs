use antgine::collision::Collision;
use antgine::fx::FX_ONE;
use antgine::line::Line;
use antgine::rectangle::Rectangle;
use antgine::traits::ObjectInterface;
use antgine::vec2d::Vec2D;

fn square(center_x: i64, half: i64, mass: i64, elasticity: i64, velocity: Vec2D) -> Rectangle {
    Rectangle::new(
        Vec2D::new(center_x - half, -half),
        Vec2D::new(center_x - half, half),
        2 * half,
        mass,
        elasticity,
        velocity,
        0,
        0,
        0,
    )
}

fn wall(x: i64, elasticity: i64) -> Line {
    Line::new(
        Vec2D::new(x, -50 * FX_ONE),
        Vec2D::new(x, 50 * FX_ONE),
        0,
        elasticity,
        Vec2D::new(0, 0),
        0,
        0,
        0,
    )
}

#[test]
fn equal_masses_split_the_separation_evenly() {
    // A penetration of 2.0 between equal masses moves each body's
    // tentative position by exactly 1.0, in opposite directions along
    // the axis, so the commit step carries the separation; the
    // committed positions are untouched until then.
    let mut a = square(0, FX_ONE, FX_ONE, FX_ONE, Vec2D::new(0, 0));
    let mut b = square(3 * FX_ONE / 2, FX_ONE, FX_ONE, FX_ONE, Vec2D::new(0, 0));
    let contact = Collision::new(0, 1, (2 * FX_ONE, Vec2D::new(FX_ONE, 0), Vec2D::new(0, 0)));
    contact.divide_objects(&mut a, &mut b);
    assert_eq!(a.get_potential_position(), Vec2D::new(FX_ONE, 0));
    assert_eq!(b.get_potential_position(), Vec2D::new(3 * FX_ONE / 2 - FX_ONE, 0));
    assert_eq!(a.get_current_position(), Vec2D::new(0, 0));
    assert_eq!(b.get_current_position(), Vec2D::new(3 * FX_ONE / 2, 0));
}

#[test]
fn a_massless_body_never_moves() {
    // Against a static body the dynamic one absorbs the whole
    // correction and the static one does not move at all.
    let mut a = square(0, FX_ONE, FX_ONE, FX_ONE, Vec2D::new(0, 0));
    let mut s = wall(100 * FX_ONE, FX_ONE);
    let before = s.get_potential_position();
    let contact = Collision::new(0, 0, (2 * FX_ONE, Vec2D::new(FX_ONE, 0), Vec2D::new(0, 0)));
    contact.divide_objects(&mut a, &mut s);
    assert_eq!(a.get_potential_position(), Vec2D::new(2 * FX_ONE, 0));
    assert_eq!(s.get_potential_position(), before);
}

#[test]
fn fully_elastic_equal_masses_swap_velocities() {
    // Head-on with restitution 1 and equal unit masses: an exact
    // velocity exchange.
    let mut a = square(0, FX_ONE, FX_ONE, FX_ONE, Vec2D::new(5 * FX_ONE, 0));
    let mut b = square(3 * FX_ONE / 2, FX_ONE, FX_ONE, FX_ONE, Vec2D::new(-5 * FX_ONE, 0));
    let contact = Collision::new(0, 1, (FX_ONE / 2, Vec2D::new(FX_ONE, 0), Vec2D::new(FX_ONE / 2, 0)));
    contact.change_energy(&mut a, &mut b);
    assert_eq!(a.get_velocity(), Vec2D::new(-5 * FX_ONE, 0));
    assert_eq!(b.get_velocity(), Vec2D::new(5 * FX_ONE, 0));
    assert_eq!(a.get_angle_velocity(), 0);
    assert_eq!(b.get_angle_velocity(), 0);
}

#[test]
fn rebound_off_a_static_body_scales_by_the_joint_restitution() {
    // A body striking an immovable wall at normal incidence comes away
    // with velocity -elasticity * incoming, exactly.
    let mut a = square(0, FX_ONE, FX_ONE, FX_ONE / 2, Vec2D::new(4 * FX_ONE, 0));
    let mut s = wall(FX_ONE, FX_ONE);
    let contact = Collision::new(0, 0, (FX_ONE / 4, Vec2D::new(FX_ONE, 0), Vec2D::new(FX_ONE, 0)));
    contact.change_energy(&mut a, &mut s);
    assert_eq!(a.get_velocity(), Vec2D::new(-2 * FX_ONE, 0));
    assert_eq!(s.get_velocity(), Vec2D::new(0, 0));
    assert_eq!(s.get_angle_velocity(), 0);
}

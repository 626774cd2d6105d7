use antgine::angle::Angle;
use antgine::fx::FX_ONE;
use antgine::line::Line;
use antgine::matrix2d::Matrix2D;
use antgine::rectangle::Rectangle;
use antgine::traits::{AsObject, MoveInterface, ObjectInterface};
use antgine::vec2d::Vec2D;

fn square(center_x: i64, center_y: i64, half: i64, mass: i64, elasticity: i64, velocity: Vec2D) -> Rectangle {
    // An axis-aligned square: the edge runs along +y, so the center sits
    // half an edge along +y and half an edge along +x from the first corner.
    Rectangle::new(
        Vec2D::new(center_x - half, center_y - half),
        Vec2D::new(center_x - half, center_y + half),
        2 * half,
        mass,
        elasticity,
        velocity,
        0,
        0,
        0,
    )
}

#[test]
fn matrix_vector_product() {
    let m = Matrix2D::new(2 * FX_ONE, 0, 0, 3 * FX_ONE);
    let r = m.multiply_vec2d(&Vec2D::new(5 * FX_ONE, -FX_ONE));
    assert_eq!(r, Vec2D::new(10 * FX_ONE, -3 * FX_ONE));
    let rot = Matrix2D::new(0, -FX_ONE, FX_ONE, 0);
    assert_eq!(rot.multiply_vec2d(&Vec2D::new(FX_ONE, 0)), Vec2D::new(0, FX_ONE));
    assert_eq!(Matrix2D::default().multiply_vec2d(&Vec2D::new(7, 9)), Vec2D::new(0, 0));
}

#[test]
fn rectangle_geometry_from_two_corners() {
    let r = Rectangle::new(
        Vec2D::new(0, 0),
        Vec2D::new(0, 20 * FX_ONE),
        20 * FX_ONE,
        10 * FX_ONE,
        FX_ONE,
        Vec2D::new(100 * FX_ONE, 0),
        0,
        0,
        0,
    );
    assert_eq!(r.get_current_position(), Vec2D::new(10 * FX_ONE, 10 * FX_ONE));
    assert_eq!(r.get_potential_position(), Vec2D::new(10 * FX_ONE, 10 * FX_ONE));
    assert_eq!(r.get_size(), Vec2D::new(20 * FX_ONE, 20 * FX_ONE));
    assert_eq!(r.get_direction(), Vec2D::new(0, FX_ONE));
    let corners = r.get_potential_vertex();
    assert_eq!(
        corners,
        vec![
            Vec2D::new(20 * FX_ONE, 0),
            Vec2D::new(0, 0),
            Vec2D::new(20 * FX_ONE, 20 * FX_ONE),
            Vec2D::new(0, 20 * FX_ONE),
        ],
    );
    // mass * (size.x^2 + size.y^2) / 12 in fixed point.
    assert_eq!(r.get_inertia(), 699050666);
    assert_eq!(r.get_mass(), 10 * FX_ONE);
    assert_eq!(r.get_inversion_mass(), 104857);
    assert_eq!(r.get_inversion_inertia(), 1572);
    assert_eq!(r.get_elasticity(), FX_ONE);
    assert_eq!(r.get_velocity(), Vec2D::new(100 * FX_ONE, 0));
}

#[test]
fn setters_keep_the_inertia_rule() {
    let mut r = square(0, 0, FX_ONE, FX_ONE, FX_ONE, Vec2D::new(0, 0));
    r.set_mass(10 * FX_ONE);
    r.set_size(Vec2D::new(20 * FX_ONE, 20 * FX_ONE));
    assert_eq!(r.get_inertia(), 699050666);
    r.set_mass(0);
    assert_eq!(r.get_inertia(), 0);
    assert_eq!(r.get_inversion_mass(), 0);
    assert_eq!(r.get_inversion_inertia(), 0);
}

#[test]
fn plain_attribute_setters_round_trip() {
    let mut r = square(0, 0, FX_ONE, FX_ONE, FX_ONE, Vec2D::new(0, 0));
    r.set_current_position(Vec2D::new(1, 2));
    r.set_potential_position(Vec2D::new(3, 4));
    r.set_direction(Vec2D::new(FX_ONE, 0));
    r.set_elasticity(7);
    r.set_velocity(Vec2D::new(8, 9));
    r.set_friction(10);
    r.set_angle(Angle::new(11));
    r.set_angle_velocity(12);
    r.set_angle_friction(13);
    assert_eq!(r.get_current_position(), Vec2D::new(1, 2));
    assert_eq!(r.get_potential_position(), Vec2D::new(3, 4));
    assert_eq!(r.get_direction(), Vec2D::new(FX_ONE, 0));
    assert_eq!(r.get_elasticity(), 7);
    assert_eq!(r.get_velocity(), Vec2D::new(8, 9));
    assert_eq!(r.get_friction(), 10);
    assert_eq!(r.get_angle().get_radian(), 11);
    assert_eq!(r.get_angle_velocity(), 12);
    assert_eq!(r.get_angle_friction(), 13);
    r.set_potential_vertex(vec![Vec2D::new(1, 1), Vec2D::new(2, 2), Vec2D::new(3, 3), Vec2D::new(4, 4)]);
    assert_eq!(r.get_potential_vertex()[2], Vec2D::new(3, 3));
}

#[test]
fn lines_are_degenerate_rectangles() {
    let l = Line::new(
        Vec2D::new(100 * FX_ONE, 0),
        Vec2D::new(100 * FX_ONE, 100 * FX_ONE),
        0,
        FX_ONE,
        Vec2D::new(0, 0),
        0,
        0,
        0,
    );
    assert_eq!(l.get_size(), Vec2D::new(100 * FX_ONE, 0));
    assert_eq!(l.get_direction(), Vec2D::new(0, FX_ONE));
    assert_eq!(l.get_current_position(), Vec2D::new(100 * FX_ONE, 50 * FX_ONE));
    assert_eq!(l.get_mass(), 0);
    assert_eq!(l.get_inertia(), 0);
    assert_eq!(l.get_inversion_mass(), 0);
    assert_eq!(
        l.get_potential_vertex(),
        vec![Vec2D::new(100 * FX_ONE, 0), Vec2D::new(100 * FX_ONE, 100 * FX_ONE)],
    );
}

#[test]
fn conversion_to_the_object_capability_is_identity() {
    let r = square(0, 0, FX_ONE, FX_ONE, FX_ONE, Vec2D::new(3, 0));
    assert_eq!(r.as_object().get_velocity(), Vec2D::new(3, 0));
}

#[test]
fn tracer_advances_the_tentative_state_only() {
    let mut r = square(FX_ONE, FX_ONE, FX_ONE, FX_ONE, FX_ONE, Vec2D::new(100 * FX_ONE, 0));
    r.tracer(104858);
    assert_eq!(r.get_potential_position(), Vec2D::new(FX_ONE + 10485800, FX_ONE));
    assert_eq!(r.get_current_position(), Vec2D::new(FX_ONE, FX_ONE));
}

#[test]
fn run_commits_the_tentative_state() {
    let mut r = square(FX_ONE, FX_ONE, FX_ONE, FX_ONE, FX_ONE, Vec2D::new(100 * FX_ONE, 0));
    r.tracer(104858);
    r.run(104858);
    let center = Vec2D::new(FX_ONE + 10485800, FX_ONE);
    assert_eq!(r.get_current_position(), center);
    let corners = r.get_potential_vertex();
    assert_eq!(corners[0], Vec2D::new(center.x + FX_ONE, 0));
    assert_eq!(corners[1], Vec2D::new(center.x - FX_ONE, 0));
    assert_eq!(corners[2], Vec2D::new(center.x + FX_ONE, 2 * FX_ONE));
    assert_eq!(corners[3], Vec2D::new(center.x - FX_ONE, 2 * FX_ONE));
}

#[test]
fn box_pre_test_compares_half_extents() {
    let mut r = square(0, 0, FX_ONE, FX_ONE, FX_ONE, Vec2D::new(0, 0));
    r.set_potential_position(Vec2D::new(0, 0));
    assert!(r.check_collision(Vec2D::new(3 * FX_ONE / 2, 0), Vec2D::new(FX_ONE, FX_ONE)));
    assert!(!r.check_collision(Vec2D::new(4 * FX_ONE, 0), Vec2D::new(FX_ONE, FX_ONE)));
    assert!(!r.check_collision(Vec2D::new(0, 4 * FX_ONE), Vec2D::new(FX_ONE, FX_ONE)));
}

#[test]
fn circle_pre_test_compares_circumscribed_radii() {
    let a = square(0, 0, FX_ONE, FX_ONE, FX_ONE, Vec2D::new(0, 0));
    let near = square(2 * FX_ONE, 0, FX_ONE, FX_ONE, FX_ONE, Vec2D::new(0, 0));
    let far = square(10 * FX_ONE, 0, FX_ONE, FX_ONE, FX_ONE, Vec2D::new(0, 0));
    assert!(a.intersection_circumscribed_circles(&near));
    assert!(!a.intersection_circumscribed_circles(&far));
}

#[test]
fn boundary_reflection_folds_back_inside() {
    // The motion from current to tentative is degenerate (both equal),
    // so the crossing falls back to the wall at the current height and
    // the committed position lands half a width inside it.
    let mut r = square(105 * FX_ONE, 50 * FX_ONE, FX_ONE, FX_ONE, FX_ONE, Vec2D::new(30 * FX_ONE, 0));
    r.run_with_boundaries(&Vec2D::new(0, 0), &Vec2D::new(100 * FX_ONE, 100 * FX_ONE));
    assert_eq!(r.get_potential_position(), Vec2D::new(93 * FX_ONE, 50 * FX_ONE));
    assert_eq!(r.get_current_position(), Vec2D::new(99 * FX_ONE, 50 * FX_ONE));
    assert_eq!(r.get_velocity(), Vec2D::new(-30 * FX_ONE, 0));
}

#[test]
fn boundary_reflection_tracks_the_crossing_point() {
    // A real motion from inside to beyond the right wall: the committed
    // position moves to the crossing of that motion with the wall,
    // offset half a width inward; the tentative x is mirrored.
    let mut r = square(98 * FX_ONE, 50 * FX_ONE, FX_ONE, FX_ONE, FX_ONE, Vec2D::new(30 * FX_ONE, 0));
    r.set_potential_position(Vec2D::new(105 * FX_ONE, 50 * FX_ONE));
    r.run_with_boundaries(&Vec2D::new(0, 0), &Vec2D::new(100 * FX_ONE, 100 * FX_ONE));
    assert_eq!(r.get_potential_position(), Vec2D::new(93 * FX_ONE, 50 * FX_ONE));
    assert_eq!(r.get_current_position(), Vec2D::new(103809023, 50 * FX_ONE));
    assert_eq!(r.get_velocity(), Vec2D::new(-30 * FX_ONE, 0));
}

#[test]
fn boundary_reflection_flips_the_matching_component() {
    // A body out past the top wall only: the y velocity flips, x stays.
    let mut r = square(50 * FX_ONE, -3 * FX_ONE, FX_ONE, FX_ONE, FX_ONE, Vec2D::new(7, -8 * FX_ONE));
    r.run_with_boundaries(&Vec2D::new(0, 0), &Vec2D::new(100 * FX_ONE, 100 * FX_ONE));
    assert_eq!(r.get_potential_position(), Vec2D::new(50 * FX_ONE, 5 * FX_ONE));
    assert_eq!(r.get_velocity(), Vec2D::new(7, 8 * FX_ONE));
}

#[test]
fn boundary_reflection_keeps_an_inside_body_still() {
    let mut r = square(50 * FX_ONE, 50 * FX_ONE, FX_ONE, FX_ONE, FX_ONE, Vec2D::new(7, 8));
    let before_current = r.get_current_position();
    r.run_with_boundaries(&Vec2D::new(0, 0), &Vec2D::new(100 * FX_ONE, 100 * FX_ONE));
    assert_eq!(r.get_potential_position(), Vec2D::new(50 * FX_ONE, 50 * FX_ONE));
    assert_eq!(r.get_current_position(), before_current);
    assert_eq!(r.get_velocity(), Vec2D::new(7, 8));
}

#[test]
fn boundary_reflection_is_idempotent() {
    // The first call establishes the strict in-bounds state; a second
    // call with the same bounds finds nothing to fold and changes
    // nothing at all.
    let plt = Vec2D::new(0, 0);
    let prb = Vec2D::new(100 * FX_ONE, 100 * FX_ONE);
    let mut r = square(105 * FX_ONE, 50 * FX_ONE, FX_ONE, FX_ONE, FX_ONE, Vec2D::new(30 * FX_ONE, 0));
    r.run_with_boundaries(&plt, &prb);
    let current = r.get_current_position();
    let potential = r.get_potential_position();
    let velocity = r.get_velocity();
    r.run_with_boundaries(&plt, &prb);
    assert_eq!(r.get_current_position(), current);
    assert_eq!(r.get_potential_position(), potential);
    assert_eq!(r.get_velocity(), velocity);
}

use antgine::fx::FX_ONE;
use antgine::rectangle::Rectangle;
use antgine::traits::ObjectInterface;
use antgine::vec2d::Vec2D;
use antgine::world::World;

fn square(center_x: i64, center_y: i64, half: i64, velocity: Vec2D) -> Rectangle {
    Rectangle::new(
        Vec2D::new(center_x - half, center_y - half),
        Vec2D::new(center_x - half, center_y + half),
        2 * half,
        FX_ONE,
        FX_ONE,
        velocity,
        0,
        0,
        0,
    )
}

#[test]
fn ticking_an_empty_world_is_a_harmless_no_op() {
    let mut world = World::new();
    world.init_map_border(Vec2D::new(0, 0), Vec2D::new(100 * FX_ONE, 100 * FX_ONE));
    for _ in 0..1000 {
        world.run(104858);
    }
    assert_eq!(world.dynamic_len(), 0);
}

#[test]
fn a_free_body_integrates_and_commits() {
    let mut world = World::new();
    world.add_dynamic_body(square(FX_ONE, FX_ONE, FX_ONE, Vec2D::new(100 * FX_ONE, 0)));
    world.run(104858);
    let body = world.get_dynamic_body(0);
    let center = Vec2D::new(FX_ONE + 10485800, FX_ONE);
    assert_eq!(body.get_current_position(), center);
    assert_eq!(body.get_potential_position(), center);
    assert_eq!(body.get_velocity(), Vec2D::new(100 * FX_ONE, 0));
    let corners = body.get_potential_vertex();
    assert_eq!(corners[0], Vec2D::new(center.x + FX_ONE, 0));
}

#[test]
fn overlapping_bodies_bounce_apart_in_one_tick() {
    // Two equal unit-mass squares already penetrating by half a unit:
    // the tick detects the contact, separates the tentative positions
    // by a quarter unit each (which the commit step makes current), and
    // the impulse reverses the approach, with the corner contact
    // feeding part of the energy into spin.
    let mut world = World::new();
    world.add_dynamic_body(square(0, 0, FX_ONE, Vec2D::new(5 * FX_ONE, 0)));
    world.add_dynamic_body(square(3 * FX_ONE / 2, 0, FX_ONE, Vec2D::new(-5 * FX_ONE, 0)));
    world.run(0);
    let first = world.get_dynamic_body(0);
    let second = world.get_dynamic_body(1);
    assert_eq!(first.get_current_position(), Vec2D::new(-FX_ONE / 4, 0));
    assert_eq!(second.get_current_position(), Vec2D::new(3 * FX_ONE / 2 + FX_ONE / 4, 0));
    assert_eq!(first.get_velocity(), Vec2D::new(1048578, 0));
    assert_eq!(second.get_velocity(), Vec2D::new(-1048578, 0));
    assert_eq!(first.get_angle_velocity(), -6 * FX_ONE);
    assert_eq!(second.get_angle_velocity(), 6 * FX_ONE);
}

#[test]
fn separated_bodies_pass_a_tick_untouched() {
    let mut world = World::new();
    world.add_dynamic_body(square(0, 0, FX_ONE, Vec2D::new(FX_ONE, 0)));
    world.add_dynamic_body(square(10 * FX_ONE, 0, FX_ONE, Vec2D::new(-FX_ONE, 0)));
    world.run(104858);
    assert_eq!(world.get_dynamic_body(0).get_velocity(), Vec2D::new(FX_ONE, 0));
    assert_eq!(world.get_dynamic_body(1).get_velocity(), Vec2D::new(-FX_ONE, 0));
    assert_eq!(world.dynamic_len(), 2);
}

use antgine::fx::FX_ONE;
use antgine::line::Line;
use antgine::rectangle::Rectangle;
use antgine::traits::MoveInterface;
use antgine::vec2d::Vec2D;

fn square(center_x: i64, center_y: i64, half: i64) -> Rectangle {
    Rectangle::new(
        Vec2D::new(center_x - half, center_y - half),
        Vec2D::new(center_x - half, center_y + half),
        2 * half,
        FX_ONE,
        FX_ONE,
        Vec2D::new(0, 0),
        0,
        0,
        0,
    )
}

#[test]
fn separated_rectangles_report_no_collision() {
    // A at (0,0) size (10,10), B at (20,20) size (10,10).
    let a = square(0, 0, 5 * FX_ONE);
    let b = square(20 * FX_ONE, 20 * FX_ONE, 5 * FX_ONE);
    assert_eq!(a.sat(&b), None);
    assert_eq!(b.sat(&a), None);
}

#[test]
fn touching_rectangles_report_no_collision() {
    // Touching edge to edge: zero overlap counts as separated.
    let a = square(0, 0, FX_ONE);
    let b = square(2 * FX_ONE, 0, FX_ONE);
    assert_eq!(a.sat(&b), None);
}

#[test]
fn overlapping_unit_squares_yield_half_overlap_along_x() {
    // Unit squares centered half a unit apart on the x axis.
    let a = square(0, 0, FX_ONE / 2);
    let b = square(FX_ONE / 2, 0, FX_ONE / 2);
    let (min_overlap, smallest_axis, contact_vertex) = a.sat(&b).unwrap();
    assert_eq!(min_overlap, FX_ONE / 2);
    assert_eq!(smallest_axis, Vec2D::new(-FX_ONE, 0));
    assert_eq!(contact_vertex, Vec2D::new(0, -FX_ONE / 2));
}

#[test]
fn swapping_the_bodies_negates_the_axis() {
    // The same overlap seen from the other body: equal penetration and
    // an opposite axis. Axis-aligned squares tie on their duplicated
    // axes, so the search settles on different tied axes in the two
    // calls and each reads its contact vertex from the other body.
    let a = square(0, 0, FX_ONE / 2);
    let b = square(FX_ONE / 2, 0, FX_ONE / 2);
    let first = a.sat(&b).unwrap();
    let second = b.sat(&a).unwrap();
    assert_eq!(first.0, second.0);
    assert_eq!(second.1, first.1.mul_n(-FX_ONE));
    assert_eq!(second.1, Vec2D::new(FX_ONE, 0));
    assert_eq!(first.2, Vec2D::new(0, -FX_ONE / 2));
    assert_eq!(second.2, Vec2D::new(FX_ONE / 2, -FX_ONE / 2));
}

#[test]
fn symmetry_holds_for_a_rotated_pair_too() {
    let a = square(0, 0, FX_ONE);
    // A rectangle whose edge runs along the 3-4-5 direction.
    let b = Rectangle::new(
        Vec2D::new(FX_ONE / 2, 0),
        Vec2D::new(FX_ONE / 2 + 3 * FX_ONE * 3 / 5, 4 * FX_ONE * 3 / 5),
        2 * FX_ONE,
        FX_ONE,
        FX_ONE,
        Vec2D::new(0, 0),
        0,
        0,
        0,
    );
    let first = a.sat(&b).unwrap();
    let second = b.sat(&a).unwrap();
    assert_eq!(first.0, 524288);
    assert_eq!(second.0, first.0);
    assert_eq!(second.1, first.1.mul_n(-FX_ONE));
    assert_eq!(first.1, Vec2D::new(-FX_ONE, 0));
    assert_eq!(first.2, second.2);
    assert_eq!(first.2, Vec2D::new(FX_ONE / 2, 0));
}

#[test]
fn a_zero_width_line_always_separates() {
    // A segment's projection interval on its own normal axis is a
    // single point, so the plain overlap on that axis can never be
    // positive: the narrow phase reports no collision even for a
    // rectangle straddling the segment.
    let r = square(100 * FX_ONE - FX_ONE / 2, 50 * FX_ONE, FX_ONE);
    let l = Line::new(
        Vec2D::new(100 * FX_ONE, 0),
        Vec2D::new(100 * FX_ONE, 100 * FX_ONE),
        0,
        FX_ONE,
        Vec2D::new(0, 0),
        0,
        0,
        0,
    );
    assert_eq!(r.sat(&l), None);
}

use antgine::fx::FX_ONE;
use antgine::vec2d::Vec2D;

fn units(v: i64) -> f64 {
    v as f64 / FX_ONE as f64
}

#[test]
fn vector_algebra_is_componentwise() {
    let a = Vec2D::new(3 * FX_ONE, -2 * FX_ONE);
    let b = Vec2D::new(FX_ONE, 5 * FX_ONE);
    assert_eq!(a.add(b), Vec2D::new(4 * FX_ONE, 3 * FX_ONE));
    assert_eq!(a.sub(b), Vec2D::new(2 * FX_ONE, -7 * FX_ONE));
    assert_eq!(a.mul_n(2 * FX_ONE), Vec2D::new(6 * FX_ONE, -4 * FX_ONE));
    assert_eq!(Vec2D::default(), Vec2D::new(0, 0));
}

#[test]
fn dot_and_cross_products_match_their_formulas() {
    let a = Vec2D::new(3 * FX_ONE, 4 * FX_ONE);
    let b = Vec2D::new(-2 * FX_ONE, FX_ONE);
    // 3 * -2 + 4 * 1 = -2
    assert_eq!(Vec2D::dot(&a, &b), -2 * FX_ONE);
    // 3 * 1 - 4 * -2 = 11
    assert_eq!(Vec2D::cross(&a, &b), 11 * FX_ONE);
}

#[test]
fn normal_rotates_a_quarter_turn() {
    let a = Vec2D::new(3 * FX_ONE, 4 * FX_ONE);
    assert_eq!(a.normal(), Vec2D::new(-4 * FX_ONE, 3 * FX_ONE));
    // The normal is perpendicular: the dot product vanishes.
    assert_eq!(Vec2D::dot(&a, &a.normal()), 0);
}

#[test]
fn unit_of_a_three_four_vector() {
    let u = Vec2D::new(3 * FX_ONE, 4 * FX_ONE).unit();
    assert_eq!(u, Vec2D::new(629145, 838860));
}

#[test]
fn unit_vectors_have_length_one_within_tolerance() {
    let samples = [
        Vec2D::new(3 * FX_ONE, 4 * FX_ONE),
        Vec2D::new(12345 * FX_ONE + 678, -9876 * FX_ONE),
        Vec2D::new(7, -FX_ONE - 3),
        Vec2D::new(2 * FX_ONE, 0),
        Vec2D::new(-FX_ONE, -FX_ONE),
        Vec2D::new(100000 * FX_ONE, 99999 * FX_ONE),
    ];
    for v in samples {
        let u = v.unit();
        let len = units(u.len_vector(&Vec2D::new(0, 0)));
        assert!((len - 1.0).abs() < 1e-5, "length {len} of unit of {v:?}");
    }
}

#[test]
fn unit_of_the_zero_vector_stays_zero() {
    assert_eq!(Vec2D::new(0, 0).unit(), Vec2D::new(0, 0));
}

#[test]
fn crossing_diagonals_meet_in_the_middle() {
    let r = Vec2D::cross_pointll(
        Vec2D::new(0, 0),
        Vec2D::new(2 * FX_ONE, 2 * FX_ONE),
        Vec2D::new(0, 2 * FX_ONE),
        Vec2D::new(2 * FX_ONE, 0),
    );
    assert_eq!(r, Some(Vec2D::new(FX_ONE, FX_ONE)));
}

#[test]
fn parallel_lines_have_no_crossing() {
    let r = Vec2D::cross_pointll(
        Vec2D::new(0, 0),
        Vec2D::new(FX_ONE, 0),
        Vec2D::new(0, FX_ONE),
        Vec2D::new(FX_ONE, FX_ONE),
    );
    assert_eq!(r, None);
}

#[test]
fn distance_between_points() {
    let a = Vec2D::new(FX_ONE, FX_ONE);
    let b = Vec2D::new(4 * FX_ONE, 5 * FX_ONE);
    assert_eq!(a.len_vector(&b), 5 * FX_ONE);
}

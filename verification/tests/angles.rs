use antgine::angle::{Angle, TAU_FX};
use antgine::fx::FX_ONE;

#[test]
fn angles_normalize_into_one_turn() {
    // -0.5 radians wraps to about 5.78.
    let a = Angle::new(-FX_ONE / 2);
    assert_eq!(a.get_radian(), -FX_ONE / 2 + TAU_FX);
    assert!((a.get_radian() as f64 / FX_ONE as f64 - 5.783185).abs() < 1e-5);

    // Seven half-turns wrap to about pi.
    let b = Angle::new(23059391);
    assert_eq!(b.get_radian(), 23059391 - 3 * TAU_FX);
    assert!((b.get_radian() as f64 / FX_ONE as f64 - std::f64::consts::PI).abs() < 1e-5);
}

#[test]
fn every_input_lands_in_the_half_open_turn() {
    let inputs = [0, -1, 1, TAU_FX, TAU_FX - 1, -TAU_FX, 17 * TAU_FX + 5, i64::MAX, i64::MIN];
    for r in inputs {
        let a = Angle::new(r);
        assert!(0 <= a.get_radian() && a.get_radian() < TAU_FX, "input {r}");
    }
}

#[test]
fn set_radian_renormalizes() {
    let mut a = Angle::default();
    assert_eq!(a.get_radian(), 0);
    a.set_radian(TAU_FX + 3);
    assert_eq!(a.get_radian(), 3);
    a.set_radian(-3);
    assert_eq!(a.get_radian(), TAU_FX - 3);
}

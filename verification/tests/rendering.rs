use angle::{parenthesize, Deg, Rad};

#[test]
fn degrees_render_in_brackets() {
    assert_eq!(Deg(45.0f32).to_string(), "(45)");
    assert_eq!(Deg(45.0f64).to_string(), "(45)");
}

#[test]
fn radians_render_in_brackets() {
    assert_eq!(Rad(1.5f32).to_string(), "(1.5)");
    assert_eq!(Rad(1.5f64).to_string(), "(1.5)");
}

#[test]
fn rendering_has_no_unit_suffix() {
    assert_eq!(Deg(90.0f64).to_string(), Rad(90.0f64).to_string());
}

#[test]
fn rendering_keeps_sign_and_fraction() {
    assert_eq!(Deg(-12.25f64).to_string(), "(-12.25)");
    assert_eq!(Rad(-0.5f32).to_string(), "(-0.5)");
    assert_eq!(Deg(720.0f32).to_string(), "(720)");
}

#[test]
fn rendering_of_non_finite_payloads() {
    assert_eq!(Deg(f64::NAN).to_string(), "(NaN)");
    assert_eq!(Rad(f32::INFINITY).to_string(), "(inf)");
    assert_eq!(Rad(f64::NEG_INFINITY).to_string(), "(-inf)");
}

#[test]
fn parenthesize_wraps_the_text() {
    assert_eq!(parenthesize("45"), "(45)");
    assert_eq!(parenthesize("1.5"), "(1.5)");
}

#[test]
fn parenthesize_of_empty_text() {
    assert_eq!(parenthesize(""), "()");
}

#[test]
fn parenthesize_does_not_touch_the_text() {
    assert_eq!(parenthesize("(45)"), "((45))");
    assert_eq!(parenthesize(" 4 5 "), "( 4 5 )");
    assert_eq!(parenthesize("\u{3c0}/4"), "(\u{3c0}/4)");
}

#[test]
fn rendering_agrees_with_parenthesize() {
    assert_eq!(Deg(33.5f64).to_string(), parenthesize(&33.5f64.to_string()));
    assert_eq!(Rad(0.1f32).to_string(), parenthesize(&0.1f32.to_string()));
}

use gravyan::app::App;
use gravyan::field::InputField;
use gravyan::form::{AppState, CalculationResult};
use gravyan::number::Binary64;

fn number(x: f64) -> Binary64 {
    Binary64::from_bits(x.to_bits())
}

fn value(x: Binary64) -> f64 {
    f64::from_bits(x.to_bits())
}

fn measure(app: &App) -> Option<CalculationResult> {
    let height = app.height_input.parse::<f64>().ok()?;
    let velocity = app.velocity_input.parse::<f64>().ok()?;
    let gravity = velocity.powf(2.0) / (height * 2.0);
    Some(CalculationResult {
        velocity: number(velocity),
        height: number(height),
        gravity: number(gravity),
    })
}

fn filled(height: &str, velocity: &str) -> App {
    let mut app = App::new();
    app.height_input = String::from(height);
    app.velocity_input = String::from(velocity);
    app
}

fn calculated(height: &str, velocity: &str) -> App {
    let mut app = filled(height, velocity);
    let measured = measure(&app);
    app.calculate(measured);
    app
}

fn assert_untouched(app: &App, height: &str, velocity: &str) {
    assert_eq!(app.height_input, height);
    assert_eq!(app.velocity_input, velocity);
    assert_eq!(app.selected_field, InputField::Height);
    assert_eq!(app.state, AppState::Input);
    assert!(app.result.is_none());
}

#[test]
fn calculate_stores_the_measurement() {
    let app = calculated("20", "10");
    assert_eq!(app.state, AppState::Result);
    let result = app.result.expect("a result");
    assert_eq!(value(result.height), 20.0);
    assert_eq!(value(result.velocity), 10.0);
    assert_eq!(value(result.gravity), 2.5);
    assert_eq!(result.gravity, number(2.5));
    assert_eq!(app.height_input, "20");
    assert_eq!(app.velocity_input, "10");
    assert_eq!(app.selected_field, InputField::Height);
}

#[test]
fn calculate_keeps_the_measurement_as_given() {
    let mut app = App::new();
    let measured = CalculationResult {
        velocity: Binary64 { bits: 0x4024_0000_0000_0000 },
        height: Binary64 { bits: 0x4034_0000_0000_0000 },
        gravity: Binary64 { bits: 0x4004_0000_0000_0000 },
    };
    app.calculate(Some(measured));
    assert_eq!(app.state, AppState::Result);
    assert_eq!(app.result, Some(measured));
}

#[test]
fn calculate_of_fractional_inputs() {
    let app = calculated("4.9", "9.8");
    assert_eq!(app.state, AppState::Result);
    let gravity = value(app.result.expect("a result").gravity);
    assert!((gravity - 9.8).abs() < 1e-9);
}

#[test]
fn calculate_ignores_the_sign_of_velocity() {
    let down = calculated("20", "-10");
    let up = calculated("20", "10");
    assert_eq!(down.state, AppState::Result);
    let down = down.result.expect("a result");
    let up = up.result.expect("a result");
    assert_eq!(down.gravity, up.gravity);
    assert_eq!(value(down.gravity), 2.5);
    assert_eq!(value(down.velocity), -10.0);
}

#[test]
fn calculate_with_zero_velocity_gives_zero_gravity() {
    let app = calculated("20", "0");
    assert_eq!(app.state, AppState::Result);
    assert_eq!(value(app.result.expect("a result").gravity), 0.0);
}

#[test]
fn calculate_lets_large_values_overflow() {
    let app = calculated("1", "1e200");
    assert_eq!(app.state, AppState::Result);
    assert_eq!(value(app.result.expect("a result").gravity), f64::INFINITY);
}

#[test]
fn calculate_accepts_an_infinite_height() {
    let app = calculated("inf", "10");
    assert_eq!(app.state, AppState::Result);
    assert_eq!(value(app.result.expect("a result").gravity), 0.0);
}

#[test]
fn calculate_without_a_measurement_changes_nothing() {
    let mut app = filled("20", "10");
    app.calculate(None);
    assert_untouched(&app, "20", "10");
}

#[test]
fn calculate_rejects_a_non_numeric_height() {
    let app = calculated("abc", "10");
    assert_untouched(&app, "abc", "10");
}

#[test]
fn calculate_rejects_a_non_numeric_velocity() {
    let app = calculated("20", "abc");
    assert_untouched(&app, "20", "abc");
}

#[test]
fn calculate_rejects_empty_buffers() {
    assert_untouched(&calculated("", ""), "", "");
    assert_untouched(&calculated("20", ""), "20", "");
    assert_untouched(&calculated("", "10"), "", "10");
}

#[test]
fn calculate_rejects_malformed_numbers() {
    assert_untouched(&calculated("1.2.3", "10"), "1.2.3", "10");
    assert_untouched(&calculated("20", "--5"), "20", "--5");
    assert_untouched(&calculated("-", "10"), "-", "10");
    assert_untouched(&calculated(".", "10"), ".", "10");
}

#[test]
fn calculate_rejects_a_negative_height() {
    let app = calculated("-5", "10");
    assert_untouched(&app, "-5", "10");
}

#[test]
fn calculate_rejects_a_zero_height() {
    assert_untouched(&calculated("0", "10"), "0", "10");
    assert_untouched(&calculated("-0", "10"), "-0", "10");
    assert_untouched(&calculated("0.0", "10"), "0.0", "10");
}

#[test]
fn calculate_rejects_a_height_that_is_not_a_number() {
    assert_untouched(&calculated("NaN", "10"), "NaN", "10");
    assert_untouched(&calculated("-inf", "10"), "-inf", "10");
}

#[test]
fn calculate_replaces_an_earlier_result() {
    let mut app = calculated("20", "10");
    app.height_input = String::from("5");
    let measured = measure(&app);
    app.calculate(measured);
    assert_eq!(app.state, AppState::Result);
    assert_eq!(value(app.result.expect("a result").gravity), 10.0);
}

#[test]
fn calculate_rejected_keeps_an_earlier_result() {
    let mut app = calculated("20", "10");
    let before = app.result;
    app.height_input = String::from("-1");
    let measured = measure(&app);
    app.calculate(measured);
    assert_eq!(app.state, AppState::Result);
    assert_eq!(app.result, before);
}

#[test]
fn reset_returns_to_the_initial_state() {
    let mut app = calculated("20", "10");
    app.selected_field = InputField::Velocity;
    app.reset();
    assert_untouched(&app, "", "");
}

#[test]
fn reset_from_the_input_screen() {
    let mut app = filled("1.2.3", "--5");
    app.switch_field();
    app.reset();
    assert_untouched(&app, "", "");
    app.reset();
    assert_untouched(&app, "", "");
}

#[test]
fn result_is_held_exactly_on_the_result_screen() {
    fn check(app: &App) {
        assert_eq!(app.result.is_some(), app.state == AppState::Result);
    }
    let mut app = App::new();
    check(&app);
    app.handle_input('2');
    check(&app);
    app.handle_input('x');
    check(&app);
    app.switch_field();
    check(&app);
    app.handle_backspace();
    check(&app);
    app.calculate(measure(&app));
    check(&app);
    assert_eq!(app.state, AppState::Input);
    app.handle_input('3');
    check(&app);
    app.calculate(measure(&app));
    check(&app);
    assert_eq!(app.state, AppState::Result);
    app.switch_field();
    check(&app);
    app.handle_input('1');
    check(&app);
    app.handle_backspace();
    check(&app);
    app.calculate(None);
    check(&app);
    app.reset();
    check(&app);
    assert_eq!(app.state, AppState::Input);
}

#[test]
fn is_positive_agrees_with_comparison_to_zero() {
    let samples = [
        0.0,
        -0.0,
        1.0,
        -1.0,
        20.0,
        4.9,
        -5.0,
        f64::MIN_POSITIVE,
        -f64::MIN_POSITIVE,
        f64::MAX,
        f64::MIN,
        f64::EPSILON,
        f64::INFINITY,
        f64::NEG_INFINITY,
        f64::NAN,
        -f64::NAN,
        f64::from_bits(1),
        f64::from_bits(0x8000_0000_0000_0001),
        f64::from_bits(0x000F_FFFF_FFFF_FFFF),
        f64::from_bits(0x7FEF_FFFF_FFFF_FFFF),
        f64::from_bits(0x7FF0_0000_0000_0001),
        f64::from_bits(0x7FFF_FFFF_FFFF_FFFF),
        f64::from_bits(0xFFF0_0000_0000_0001),
        f64::from_bits(0xFFFF_FFFF_FFFF_FFFF),
    ];
    for x in samples {
        assert_eq!(number(x).is_positive(), x > 0.0, "{:?}", x);
    }
}

#[test]
fn is_positive_on_bit_patterns() {
    assert!(!Binary64::from_bits(0).is_positive());
    assert!(Binary64::from_bits(1).is_positive());
    assert!(Binary64::from_bits(0x4034_0000_0000_0000).is_positive());
    assert!(Binary64::from_bits(0x7FF0_0000_0000_0000).is_positive());
    assert!(!Binary64::from_bits(0x7FF0_0000_0000_0001).is_positive());
    assert!(!Binary64::from_bits(0x7FF8_0000_0000_0000).is_positive());
    assert!(!Binary64::from_bits(0x8000_0000_0000_0000).is_positive());
    assert!(!Binary64::from_bits(0xC014_0000_0000_0000).is_positive());
    assert!(!Binary64::from_bits(u64::MAX).is_positive());
}

#[test]
fn bits_round_trip() {
    assert_eq!(Binary64::from_bits(0x4004_0000_0000_0000).to_bits(), 0x4004_0000_0000_0000);
    assert_eq!(number(2.5).to_bits(), 0x4004_0000_0000_0000);
    assert_eq!(number(2.5), Binary64 { bits: 0x4004_0000_0000_0000 });
}

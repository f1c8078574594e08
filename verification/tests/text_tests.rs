use reactor_sim::audio::talking_clip_path;
use reactor_sim::display::{applied_value_text, fuel_text, money_text, slider_value_text, update_indicators};
use reactor_sim::simulation::{EnvironmentState, ReactorState, TurbineState};
use reactor_sim::text::{format_fixed, format_int};

#[test]
fn fixed_rounds_half_to_even() {
    assert_eq!(format_fixed(1_500_000, 0), "2");
    assert_eq!(format_fixed(2_500_000, 0), "2");
    assert_eq!(format_fixed(3_500_000, 0), "4");
    assert_eq!(format_fixed(1_490_000, 0), "1");
    assert_eq!(format_fixed(1_510_000, 0), "2");
}

#[test]
fn fixed_with_decimals() {
    assert_eq!(format_fixed(12_345_678, 1), "12.3");
    assert_eq!(format_fixed(12_350_000, 1), "12.4");
    assert_eq!(format_fixed(12_250_000, 1), "12.2");
    assert_eq!(format_fixed(0, 1), "0.0");
    assert_eq!(format_fixed(5, 6), "0.000005");
    assert_eq!(format_fixed(1_050_000, 2), "1.05");
}

#[test]
fn fixed_negative_values_keep_their_sign() {
    assert_eq!(format_fixed(-1_500_000, 0), "-2");
    assert_eq!(format_fixed(-400_000, 0), "-0");
    assert_eq!(format_fixed(i64::MIN, 0), "-9223372036855");
}

#[test]
fn integers() {
    assert_eq!(format_int(0), "0");
    assert_eq!(format_int(-42), "-42");
    assert_eq!(format_int(1234567), "1234567");
    assert_eq!(format_int(i64::MIN), "-9223372036854775808");
    assert_eq!(format_int(i64::MAX), "9223372036854775807");
}

#[test]
fn gauge_texts_of_a_cold_plant() {
    let texts = update_indicators(&ReactorState::default(), &TurbineState::default(), &EnvironmentState::default());
    assert_eq!(texts.reactor_temperature, "20°C");
    assert_eq!(texts.reactor_pressure, "1.0 bar");
    assert_eq!(texts.turbine_temperature, "20°C");
    assert_eq!(texts.power, "0 MW");
    assert_eq!(texts.durability, "100%");
}

#[test]
fn gauge_texts_round() {
    let reactor = ReactorState { temperature: 845_600_000, pressure: 123_456_789 };
    let turbine = TurbineState { temperature: 250_500_000, durability: 98_333_334, ..TurbineState::default() };
    let environment = EnvironmentState { power_generated: 80_758_620, ..EnvironmentState::default() };
    let texts = update_indicators(&reactor, &turbine, &environment);
    assert_eq!(texts.reactor_temperature, "846°C");
    assert_eq!(texts.reactor_pressure, "123.5 bar");
    assert_eq!(texts.turbine_temperature, "250°C");
    assert_eq!(texts.power, "81 MW");
    assert_eq!(texts.durability, "98%");
}

#[test]
fn money_and_control_texts() {
    assert_eq!(money_text(&EnvironmentState::default()), "$1000");
    let rich = EnvironmentState { money: 2_345_600_000, ..EnvironmentState::default() };
    assert_eq!(money_text(&rich), "$2346");
    assert_eq!(slider_value_text(55_700_000), "55%");
    assert_eq!(slider_value_text(0), "0%");
    assert_eq!(applied_value_text(12_340_000), "Internal: 12.3%");
    assert_eq!(fuel_text(&EnvironmentState::default()), "100%");
    let half = EnvironmentState { fuel_left: 505_000, ..EnvironmentState::default() };
    assert_eq!(fuel_text(&half), "50%");
}

#[test]
fn clip_paths_have_three_digits() {
    assert_eq!(talking_clip_path(7), "sound/talking/talking_007.mp3");
    assert_eq!(talking_clip_path(10), "sound/talking/talking_010.mp3");
    assert_eq!(talking_clip_path(1234), "sound/talking/talking_1234.mp3");
}

use reactor_sim::display::{update_applied_value_text, update_slider_value_text};
use reactor_sim::simulation::ControlSettings;

#[test]
fn slider_texts() {
    let controls = ControlSettings {
        reactivity_target: 42_900_000,
        reactivity_applied: 41_250_000,
        turbine_target: 100_000_000,
        turbine_applied: 99_960_000,
    };
    let values = update_slider_value_text(&controls);
    assert_eq!(values.reactivity, "42%");
    assert_eq!(values.turbine, "100%");
    let applied = update_applied_value_text(&controls);
    assert_eq!(applied.reactivity, "Internal: 41.2%");
    assert_eq!(applied.turbine, "Internal: 100.0%");
}

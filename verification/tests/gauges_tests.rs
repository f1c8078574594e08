use reactor_sim::gauges::{gauge_zone, turbine_panel, zone, GaugeType, TurbinePanel, Zone};
use reactor_sim::simulation::{EnvironmentState, ReactorState, TurbineState};

#[test]
fn zone_boundaries() {
    assert_eq!(zone(59, 100), Zone::Green);
    assert_eq!(zone(60, 100), Zone::Yellow);
    assert_eq!(zone(79, 100), Zone::Yellow);
    assert_eq!(zone(80, 100), Zone::Red);
    assert_eq!(zone(94, 100), Zone::Red);
    assert_eq!(zone(95, 100), Zone::Black);
    assert_eq!(zone(400, 100), Zone::Black);
    assert_eq!(zone(-5, 100), Zone::Green);
}

#[test]
fn gauges_use_their_limits() {
    let reactor = ReactorState { temperature: 960_000_000, pressure: 100_000_000 };
    let turbine = TurbineState { temperature: 250_000_000, ..TurbineState::default() };
    let environment = EnvironmentState { power_generated: 999_000_000_000, ..EnvironmentState::default() };
    assert_eq!(gauge_zone(GaugeType::ReactorTemp, &reactor, &turbine, &environment), Zone::Red);
    assert_eq!(gauge_zone(GaugeType::ReactorPressure, &reactor, &turbine, &environment), Zone::Yellow);
    assert_eq!(gauge_zone(GaugeType::TurbineTemp, &reactor, &turbine, &environment), Zone::Red);
    assert_eq!(gauge_zone(GaugeType::Power, &reactor, &turbine, &environment), Zone::Green);
    let upgraded = TurbineState { upgraded: true, ..turbine };
    assert_eq!(gauge_zone(GaugeType::TurbineTemp, &reactor, &upgraded, &environment), Zone::Yellow);
}

#[test]
fn buy_back_replaces_broken_gauge() {
    assert_eq!(turbine_panel(&TurbineState::default()), TurbinePanel::Gauge);
    let broken = TurbineState { is_destroyed: true, durability: 0, ..TurbineState::default() };
    assert_eq!(turbine_panel(&broken), TurbinePanel::BuyBack);
}

use reactor_sim::gauges::{gauge_border_color, gauge_color, Rgba};

fn rgba(red: i64, green: i64, blue: i64, alpha: i64) -> Rgba {
    Rgba { red, green, blue, alpha }
}

#[test]
fn zone_colours_fade() {
    assert_eq!(gauge_color(Zone::Green, 10, 100, 0, 500_000), rgba(200_000, 800_000, 200_000, 1_000_000));
    assert_eq!(gauge_color(Zone::Yellow, 70, 100, 0, 500_000), rgba(550_000, 850_000, 150_000, 1_000_000));
    assert_eq!(gauge_color(Zone::Yellow, 60, 100, 0, 500_000), rgba(200_000, 800_000, 200_000, 1_000_000));
    assert_eq!(gauge_color(Zone::Red, 875, 1000, 100_000, 500_000), rgba(900_000, 500_000, 100_000, 1_000_000));
    assert_eq!(gauge_color(Zone::Red, 875, 1000, 300_000, 500_000), rgba(0, 0, 0, 0));
    assert_eq!(gauge_color(Zone::Black, 975, 1000, 0, 500_000), rgba(450_000, 50_000, 50_000, 500_000));
    assert_eq!(gauge_color(Zone::Black, 1200, 1000, 0, 500_000), rgba(0, 0, 0, 0));
}

#[test]
fn gauge_borders() {
    let reactor = ReactorState { temperature: 1_050_000_000, pressure: 1_000_000 };
    let turbine = TurbineState::default();
    let environment = EnvironmentState { power_generated: 900_000_000_000, ..EnvironmentState::default() };
    assert_eq!(
        gauge_border_color(GaugeType::ReactorTemp, &reactor, &turbine, &environment, 0, 500_000),
        rgba(900_000, 500_000, 100_000, 1_000_000)
    );
    assert_eq!(
        gauge_border_color(GaugeType::ReactorPressure, &reactor, &turbine, &environment, 0, 500_000),
        rgba(200_000, 800_000, 200_000, 1_000_000)
    );
    assert_eq!(
        gauge_border_color(GaugeType::Power, &reactor, &turbine, &environment, 0, 500_000),
        rgba(200_000, 800_000, 200_000, 1_000_000)
    );
}

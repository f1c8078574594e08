use vstd::prelude::*;

use crate::simulation::{
    turbine_limit, EnvironmentState, ReactorState, TurbineState, REACTOR_PRESSURE_LIMIT,
    REACTOR_TEMP_LIMIT,
};

verus! {

/// Scale of the power gauge (1000 MW); the power gauge is never coloured by it.
pub const POWER_GAUGE_SCALE: i64 = 1_000_000_000;

/// The four round gauges.
#[derive(Clone, Copy, PartialEq, Eq, Structural, Debug)]
pub enum GaugeType {
    ReactorTemp,
    ReactorPressure,
    TurbineTemp,
    Power,
}

/// The colour zones of a gauge: green below 60 % of the limit, yellow below
/// 80 %, red (blinking) below 95 %, black from 95 % on.
#[derive(Clone, Copy, PartialEq, Eq, Structural, Debug)]
pub enum Zone {
    Green,
    Yellow,
    Red,
    Black,
}

/// The zone of `value` against `limit`.
pub open spec fn zone_of(value: int, limit: int) -> Zone {
    if 100 * value >= 95 * limit {
        Zone::Black
    } else if 100 * value >= 80 * limit {
        Zone::Red
    } else if 100 * value >= 60 * limit {
        Zone::Yellow
    } else {
        Zone::Green
    }
}

/// The zone of `value` against `limit`.
pub fn zone(value: i64, limit: i64) -> (z: Zone)
    ensures
        z == zone_of(value as int, limit as int),
        limit >= 0 && 100 * value < 60 * limit ==> z == Zone::Green,
        60 * limit <= 100 * value < 80 * limit ==> z == Zone::Yellow,
        80 * limit <= 100 * value < 95 * limit ==> z == Zone::Red,
        100 * value >= 95 * limit ==> z == Zone::Black,
{
    let v = 100 * (value as i128);
    let l = limit as i128;
    if v >= 95 * l {
        Zone::Black
    } else if v >= 80 * l {
        Zone::Red
    } else if v >= 60 * l {
        Zone::Yellow
    } else {
        Zone::Green
    }
}

/// The value a gauge shows and the limit its colours are measured against.
pub open spec fn gauge_reading(
    gauge: GaugeType,
    reactor: ReactorState,
    turbine: TurbineState,
    environment: EnvironmentState,
) -> (int, int) {
    match gauge {
        GaugeType::ReactorTemp => (reactor.temperature as int, REACTOR_TEMP_LIMIT as int),
        GaugeType::ReactorPressure => (reactor.pressure as int, REACTOR_PRESSURE_LIMIT as int),
        GaugeType::TurbineTemp => (turbine.temperature as int, turbine_limit(turbine.upgraded)),
        GaugeType::Power => (environment.power_generated as int, POWER_GAUGE_SCALE as int),
    }
}

/// The zone a gauge is coloured by; the power gauge always stays green.
pub fn gauge_zone(
    gauge: GaugeType,
    reactor: &ReactorState,
    turbine: &TurbineState,
    environment: &EnvironmentState,
) -> (z: Zone)
    ensures
        gauge == GaugeType::Power ==> z == Zone::Green,
        gauge != GaugeType::Power ==> z == zone_of(
            gauge_reading(gauge, *reactor, *turbine, *environment).0,
            gauge_reading(gauge, *reactor, *turbine, *environment).1,
        ),
{
    match gauge {
        GaugeType::ReactorTemp => zone(reactor.temperature, REACTOR_TEMP_LIMIT),
        GaugeType::ReactorPressure => zone(reactor.pressure, REACTOR_PRESSURE_LIMIT),
        GaugeType::TurbineTemp => zone(turbine.temperature, turbine.temp_limit()),
        GaugeType::Power => Zone::Green,
    }
}

/// The rank of a zone, from green (0) to black (3).
pub open spec fn zone_rank(z: Zone) -> int {
    match z {
        Zone::Green => 0,
        Zone::Yellow => 1,
        Zone::Red => 2,
        Zone::Black => 3,
    }
}

/// A gauge never gets a calmer colour as its value rises.
pub proof fn lemma_zone_monotone(a: int, b: int, limit: int)
    requires
        a <= b,
    ensures
        zone_rank(zone_of(a, limit)) <= zone_rank(zone_of(b, limit)),
{
}

/// What the turbine's place among the gauges shows.
#[derive(Clone, Copy, PartialEq, Eq, Structural, Debug)]
pub enum TurbinePanel {
    Gauge,
    BuyBack,
}

/// A destroyed turbine's gauge gives way to the buy-back button.
pub fn turbine_panel(turbine: &TurbineState) -> (panel: TurbinePanel)
    ensures
        panel == (if turbine.is_destroyed { TurbinePanel::BuyBack } else { TurbinePanel::Gauge }),
{
    if turbine.is_destroyed { TurbinePanel::BuyBack } else { TurbinePanel::Gauge }
}

/// A colour: red, green, blue and opacity, in millionths.
#[derive(Clone, Copy, PartialEq, Eq, Structural, Debug)]
pub struct Rgba {
    pub red: i64,
    pub green: i64,
    pub blue: i64,
    pub alpha: i64,
}

/// Full intensity of a colour channel.
pub const FULL_CHANNEL: i64 = 1_000_000;

/// How far (in millionths) `value` has gone from `from` percent of `limit`
/// towards `from + span` percent, cut to `0..=1`.
pub open spec fn fade(value: int, limit: int, from: int, span: int) -> int {
    let num = 100 * value - from * limit;
    if num <= 0 {
        0
    } else {
        let f = (num * FULL_CHANNEL) / (span * limit);
        if f > FULL_CHANNEL { FULL_CHANNEL as int } else { f }
    }
}

/// The border colour of a gauge in zone `zone` showing `value` against
/// `limit`, with the red zone's blink timer `blink_elapsed_us` into its
/// `blink_duration_us` period. Green zone: green. Yellow: from green
/// (0.2, 0.8, 0.2) to yellow (0.9, 0.9, 0.1) across the zone. Red: from
/// yellow to red (0.9, 0.1, 0.1), shown during the first half of each blink
/// period and transparent otherwise. Black: from red to transparent black.
pub open spec fn zone_color(zone: Zone, value: int, limit: int, blink_elapsed_us: int, blink_duration_us: int) -> Rgba {
    match zone {
        Zone::Green => Rgba { red: 200_000, green: 800_000, blue: 200_000, alpha: FULL_CHANNEL },
        Zone::Yellow => {
            let f = fade(value, limit, 60, 20);
            Rgba {
                red: (200_000 + (7 * f) / 10) as i64,
                green: (800_000 + f / 10) as i64,
                blue: (200_000 - f / 10) as i64,
                alpha: FULL_CHANNEL,
            }
        },
        Zone::Red => {
            if 2 * blink_elapsed_us < blink_duration_us {
                let f = fade(value, limit, 80, 15);
                Rgba { red: 900_000, green: (900_000 - (8 * f) / 10) as i64, blue: 100_000, alpha: FULL_CHANNEL }
            } else {
                Rgba { red: 0, green: 0, blue: 0, alpha: 0 }
            }
        },
        Zone::Black => {
            let f = fade(value, limit, 95, 5);
            let rest = FULL_CHANNEL - f;
            Rgba {
                red: ((9 * rest) / 10) as i64,
                green: (rest / 10) as i64,
                blue: (rest / 10) as i64,
                alpha: rest as i64,
            }
        },
    }
}

fn fade_exec(value: i64, limit: i64, from: i64, span: i64) -> (f: i64)
    requires
        limit > 0,
        0 <= from <= 100,
        1 <= span <= 100,
    ensures
        f == fade(value as int, limit as int, from as int, span as int),
        0 <= f <= FULL_CHANNEL,
{
    let v = value as i128;
    let l = limit as i128;
    assert(-201 * (i64::MAX as int) <= 100 * v - (from as int) * l <= 200 * (i64::MAX as int))
        by (nonlinear_arith)
        requires
            i64::MIN <= v <= i64::MAX,
            0 < l <= i64::MAX,
            0 <= from <= 100,
    ;
    assert(0 < (span as int) * l <= 100 * (i64::MAX as int)) by (nonlinear_arith)
        requires
            0 < l <= i64::MAX,
            1 <= span <= 100,
    ;
    let num: i128 = 100 * v - (from as i128) * l;
    if num <= 0 {
        return 0;
    }
    let f: i128 = (num * (FULL_CHANNEL as i128)) / ((span as i128) * l);
    if f > FULL_CHANNEL as i128 {
        FULL_CHANNEL
    } else {
        proof {
            vstd::arithmetic::div_mod::lemma_div_pos_is_pos(num * (FULL_CHANNEL as int), (span as int) * l);
        }
        f as i64
    }
}

/// The border colour of a gauge in zone `zone` (see `zone_color`).
pub fn gauge_color(zone: Zone, value: i64, limit: i64, blink_elapsed_us: i64, blink_duration_us: i64) -> (c: Rgba)
    requires
        limit > 0,
    ensures
        c == zone_color(zone, value as int, limit as int, blink_elapsed_us as int, blink_duration_us as int),
        0 <= c.red <= FULL_CHANNEL,
        0 <= c.green <= FULL_CHANNEL,
        0 <= c.blue <= FULL_CHANNEL,
        0 <= c.alpha <= FULL_CHANNEL,
{
    match zone {
        Zone::Green => Rgba { red: 200_000, green: 800_000, blue: 200_000, alpha: FULL_CHANNEL },
        Zone::Yellow => {
            let f = fade_exec(value, limit, 60, 20);
            Rgba { red: 200_000 + 7 * f / 10, green: 800_000 + f / 10, blue: 200_000 - f / 10, alpha: FULL_CHANNEL }
        },
        Zone::Red => {
            if 2 * (blink_elapsed_us as i128) < blink_duration_us as i128 {
                let f = fade_exec(value, limit, 80, 15);
                Rgba { red: 900_000, green: 900_000 - 8 * f / 10, blue: 100_000, alpha: FULL_CHANNEL }
            } else {
                Rgba { red: 0, green: 0, blue: 0, alpha: 0 }
            }
        },
        Zone::Black => {
            let f = fade_exec(value, limit, 95, 5);
            let rest = FULL_CHANNEL - f;
            Rgba { red: 9 * rest / 10, green: rest / 10, blue: rest / 10, alpha: rest }
        },
    }
}

/// The border colour of `gauge`: the power gauge always stays green; the
/// others take the colour of their zone (see `zone_color`).
pub fn gauge_border_color(
    gauge: GaugeType,
    reactor: &ReactorState,
    turbine: &TurbineState,
    environment: &EnvironmentState,
    blink_elapsed_us: i64,
    blink_duration_us: i64,
) -> (c: Rgba)
    ensures
        gauge == GaugeType::Power ==> c == zone_color(Zone::Green, 0, 1, 0, 0),
        gauge != GaugeType::Power ==> {
            let (value, limit) = gauge_reading(gauge, *reactor, *turbine, *environment);
            c == zone_color(zone_of(value, limit), value, limit, blink_elapsed_us as int, blink_duration_us as int)
        },
{
    let (value, limit) = match gauge {
        GaugeType::ReactorTemp => (reactor.temperature, REACTOR_TEMP_LIMIT),
        GaugeType::ReactorPressure => (reactor.pressure, REACTOR_PRESSURE_LIMIT),
        GaugeType::TurbineTemp => (turbine.temperature, turbine.temp_limit()),
        GaugeType::Power => {
            return gauge_color(Zone::Green, 0, 1, 0, 0);
        },
    };
    gauge_color(zone(value, limit), value, limit, blink_elapsed_us, blink_duration_us)
}

} // verus!

use vstd::prelude::*;

use crate::simulation::{ControlSettings, EnvironmentState, ReactorState, TurbineState};
use crate::text::{fixed_text, format_fixed, format_int, integer_text, UNIT};

verus! {

/// The texts of the gauges.
pub struct IndicatorTexts {
    pub reactor_temperature: String,
    pub reactor_pressure: String,
    pub turbine_temperature: String,
    pub power: String,
    pub durability: String,
}

/// The whole units of a fixed-point quantity, cut towards zero.
pub open spec fn whole_units(v: int) -> int {
    if v >= 0 { v / (UNIT as int) } else { -((-v) / (UNIT as int)) }
}

fn whole_units_exec(v: i64) -> (w: i64)
    ensures
        w == whole_units(v as int),
{
    let w = (v as i128) / (UNIT as i128);
    assert(w == whole_units(v as int)) by {
        if v < 0 {
            assert((v as int) / (UNIT as int) <= 0);
        }
    }
    w as i64
}

/// The gauge texts: temperatures to the degree, the pressure to a tenth of a
/// bar, the power to the megawatt, the turbine's durability to the percent.
pub fn update_indicators(
    reactor: &ReactorState,
    turbine: &TurbineState,
    environment: &EnvironmentState,
) -> (texts: IndicatorTexts)
    ensures
        texts.reactor_temperature@ == fixed_text(reactor.temperature as int, 0) + "°C"@,
        texts.reactor_pressure@ == fixed_text(reactor.pressure as int, 1) + " bar"@,
        texts.turbine_temperature@ == fixed_text(turbine.temperature as int, 0) + "°C"@,
        texts.power@ == fixed_text(environment.power_generated as int, 0) + " MW"@,
        texts.durability@ == fixed_text(turbine.durability as int, 0) + "%"@,
{
    IndicatorTexts {
        reactor_temperature: format_fixed(reactor.temperature, 0).concat("°C"),
        reactor_pressure: format_fixed(reactor.pressure, 1).concat(" bar"),
        turbine_temperature: format_fixed(turbine.temperature, 0).concat("°C"),
        power: format_fixed(environment.power_generated, 0).concat(" MW"),
        durability: format_fixed(turbine.durability, 0).concat("%"),
    }
}

/// The money display: dollars, rounded to the dollar.
pub fn money_text(environment: &EnvironmentState) -> (s: String)
    ensures
        s@ == "$"@ + fixed_text(environment.money as int, 0),
{
    String::from_str("$").concat(format_fixed(environment.money, 0).as_str())
}

/// A slider's setting as whole percent points, cut towards zero.
pub fn slider_value_text(target: i64) -> (s: String)
    ensures
        s@ == integer_text(whole_units(target as int)) + "%"@,
{
    format_int(whole_units_exec(target)).concat("%")
}

/// The setting the plant has reached, to a tenth of a percent point.
pub fn applied_value_text(applied: i64) -> (s: String)
    ensures
        s@ == "Internal: "@ + fixed_text(applied as int, 1) + "%"@,
{
    String::from_str("Internal: ").concat(format_fixed(applied, 1).as_str()).concat("%")
}

/// The texts of a pair of values shown beside the reactivity and turbine sliders.
pub struct SliderTexts {
    pub reactivity: String,
    pub turbine: String,
}

/// The slider settings, in whole percent points.
pub fn update_slider_value_text(controls: &ControlSettings) -> (texts: SliderTexts)
    ensures
        texts.reactivity@ == integer_text(whole_units(controls.reactivity_target as int)) + "%"@,
        texts.turbine@ == integer_text(whole_units(controls.turbine_target as int)) + "%"@,
{
    SliderTexts {
        reactivity: slider_value_text(controls.reactivity_target),
        turbine: slider_value_text(controls.turbine_target),
    }
}

/// The settings the plant has reached, to a tenth of a percent point.
pub fn update_applied_value_text(controls: &ControlSettings) -> (texts: SliderTexts)
    ensures
        texts.reactivity@ == "Internal: "@ + fixed_text(controls.reactivity_applied as int, 1) + "%"@,
        texts.turbine@ == "Internal: "@ + fixed_text(controls.turbine_applied as int, 1) + "%"@,
{
    SliderTexts {
        reactivity: applied_value_text(controls.reactivity_applied),
        turbine: applied_value_text(controls.turbine_applied),
    }
}

/// The fuel left, in whole percent points rounded half to even.
pub fn fuel_text(environment: &EnvironmentState) -> (s: String)
    requires
        0 <= environment.fuel_left <= crate::simulation::FULL_FUEL,
    ensures
        s@ == fixed_text(100 * environment.fuel_left, 0) + "%"@,
{
    format_fixed(100 * environment.fuel_left, 0).concat("%")
}

} // verus!

use vstd::prelude::*;
use vstd::arithmetic::div_mod::{lemma_div_is_ordered, lemma_div_multiples_vanish};

verus! {

// Every continuous quantity is a fixed-point integer holding millionths of
// its unit: millionths of a degree Celsius, of a bar, of a megawatt, of a
// dollar, of a percent point (durability and control settings), of the full
// fuel load, and of a second for durations and instants.

/// Reactor temperature at which the core melts (1200 °C).
pub const REACTOR_TEMP_LIMIT: i64 = 1_200_000_000;
/// Reactor pressure at which the vessel explodes (160 bar).
pub const REACTOR_PRESSURE_LIMIT: i64 = 160_000_000;
/// Safety limit of the turbine temperature (290 °C).
pub const TURBINE_TEMP_LIMIT: i64 = 290_000_000;
/// Safety limit of the turbine temperature after the upgrade (350 °C).
pub const UPGRADED_TURBINE_TEMP_LIMIT: i64 = 350_000_000;
/// Room temperature (20 °C).
pub const ROOM_TEMPERATURE: i64 = 20_000_000;
/// Pressure at rest (1 bar).
pub const ROOM_PRESSURE: i64 = 1_000_000;
/// The generator produces nothing below this turbine temperature (100 °C).
pub const MIN_GENERATOR_TEMPERATURE: i64 = 100_000_000;
/// Durability of an intact turbine (100 %).
pub const FULL_DURABILITY: i64 = 100_000_000;
/// A full load of fuel (100 %).
pub const FULL_FUEL: i64 = 1_000_000;
/// Refuelling is possible only below this fuel level (90 %).
pub const REFUEL_FUEL_THRESHOLD: i64 = 900_000;
/// Money at the start of a game ($1000).
pub const STARTING_MONEY: i64 = 1_000_000_000;
/// Price of a refuel ($250).
pub const REFUEL_COST: i64 = 250_000_000;
/// Price of rebuilding a destroyed turbine ($200).
pub const BUYBACK_COST: i64 = 200_000_000;
/// Price of the turbine upgrade ($500).
pub const TURBINE_UPGRADE_COST: i64 = 500_000_000;
/// Water flows through the turbine when its setting is above this (1 %).
pub const FLOW_THRESHOLD: i64 = 1_000_000;

/// Temperature and pressure of the reactor core.
pub struct ReactorState {
    pub temperature: i64,
    pub pressure: i64,
}

/// The turbine: rotation speed (hundreds of rpm), temperature, the
/// temperature it is driven towards, its durability and whether it is broken
/// or upgraded.
pub struct TurbineState {
    pub speed: i64,
    pub temperature: i64,
    pub target_temperature: i64,
    pub durability: i64,
    pub is_destroyed: bool,
    pub upgraded: bool,
}

/// The operator's money, the power being generated and the fuel left.
pub struct EnvironmentState {
    pub money: i64,
    pub power_generated: i64,
    pub fuel_left: i64,
}

/// Slider settings (targets) and the values the plant has reached (applied),
/// in millionths of a percent point.
pub struct ControlSettings {
    pub reactivity_target: i64,
    pub reactivity_applied: i64,
    pub turbine_target: i64,
    pub turbine_applied: i64,
}

/// Why a game ended.
#[derive(Clone, Copy, PartialEq, Eq, Structural, Debug)]
pub enum GameOverReason {
    NoLoss,
    ReactorExplosion,
    ReactorMeltdown,
    TurbineOverheat,
}

impl Default for ReactorState {
    fn default() -> (s: ReactorState)
        ensures
            s.temperature == ROOM_TEMPERATURE,
            s.pressure == ROOM_PRESSURE,
    {
        ReactorState { temperature: ROOM_TEMPERATURE, pressure: ROOM_PRESSURE }
    }
}

impl Default for TurbineState {
    fn default() -> (s: TurbineState)
        ensures
            s.speed == 0,
            s.temperature == ROOM_TEMPERATURE,
            s.target_temperature == ROOM_TEMPERATURE,
            s.durability == FULL_DURABILITY,
            !s.is_destroyed,
            !s.upgraded,
    {
        TurbineState {
            speed: 0,
            temperature: ROOM_TEMPERATURE,
            target_temperature: ROOM_TEMPERATURE,
            durability: FULL_DURABILITY,
            is_destroyed: false,
            upgraded: false,
        }
    }
}

impl Default for EnvironmentState {
    fn default() -> (s: EnvironmentState)
        ensures
            s.money == STARTING_MONEY,
            s.power_generated == 0,
            s.fuel_left == FULL_FUEL,
    {
        EnvironmentState { money: STARTING_MONEY, power_generated: 0, fuel_left: FULL_FUEL }
    }
}

impl Default for ControlSettings {
    fn default() -> (s: ControlSettings)
        ensures
            s.reactivity_target == 0,
            s.reactivity_applied == 0,
            s.turbine_target == 0,
            s.turbine_applied == 0,
    {
        ControlSettings {
            reactivity_target: 0,
            reactivity_applied: 0,
            turbine_target: 0,
            turbine_applied: 0,
        }
    }
}

impl Default for GameOverReason {
    fn default() -> (r: GameOverReason)
        ensures
            r == GameOverReason::NoLoss,
    {
        GameOverReason::NoLoss
    }
}

impl GameOverReason {
    /// The line the game-over screen shows for this reason.
    pub fn text(&self) -> (s: &'static str)
        ensures
            s@ == match *self {
                GameOverReason::ReactorExplosion => "EKSPLOZJA REAKTORA"@,
                GameOverReason::ReactorMeltdown => "ROZPAD REAKTORA"@,
                GameOverReason::TurbineOverheat => "PRZEGRZANIE TURBINY"@,
                GameOverReason::NoLoss => "Nieznana przyczyna"@,
            },
    {
        match *self {
            GameOverReason::ReactorExplosion => "EKSPLOZJA REAKTORA",
            GameOverReason::ReactorMeltdown => "ROZPAD REAKTORA",
            GameOverReason::TurbineOverheat => "PRZEGRZANIE TURBINY",
            GameOverReason::NoLoss => "Nieznana przyczyna",
        }
    }
}

/// A full control setting (100 %).
pub const FULL_SETTING: i64 = 100_000_000;

impl ControlSettings {
    /// Settings and reached values lie between 0 % and 100 %.
    pub open spec fn wf(&self) -> bool {
        &&& 0 <= self.reactivity_target <= FULL_SETTING
        &&& 0 <= self.reactivity_applied <= FULL_SETTING
        &&& 0 <= self.turbine_target <= FULL_SETTING
        &&& 0 <= self.turbine_applied <= FULL_SETTING
    }
}

/// The turbine's temperature limit, raised by the upgrade.
pub open spec fn turbine_limit(upgraded: bool) -> int {
    if upgraded { UPGRADED_TURBINE_TEMP_LIMIT as int } else { TURBINE_TEMP_LIMIT as int }
}

impl TurbineState {
    /// Durability lies between zero and full.
    pub open spec fn wf(&self) -> bool {
        0 <= self.durability <= FULL_DURABILITY
    }

    /// The temperature limit of this turbine.
    pub fn temp_limit(&self) -> (l: i64)
        ensures
            l == turbine_limit(self.upgraded),
    {
        if self.upgraded { UPGRADED_TURBINE_TEMP_LIMIT } else { TURBINE_TEMP_LIMIT }
    }
}

/// Power (millionths of a MW) produced at full flow by a turbine at
/// temperature `temp` with limit `limit`. With `p` the temperature's share of
/// the limit, cut to `0..=1`, the efficiency is `p / 0.6 * 0.7` below 60 %,
/// `0.7 + (p - 0.6) / 0.25 * 0.3` below 85 %, and `1 - (p - 0.85) / 0.15 * 0.3`
/// above; the power is the efficiency times 100 MW.
pub open spec fn efficiency_power(temp: int, limit: int) -> int {
    let t = if temp < 0 { 0 } else if temp > limit { limit } else { temp };
    if 10 * t < 6 * limit {
        (350_000_000 * t) / (3 * limit)
    } else if 100 * t < 85 * limit {
        (120_000_000 * t - 2_000_000 * limit) / limit
    } else {
        (270_000_000 * limit - 200_000_000 * t) / limit
    }
}

/// Power generated by a turbine at `temp`: nothing below 100 °C, the
/// efficiency power with water flowing, half of it without.
pub open spec fn generated_power(temp: int, limit: int, turbine_applied: int) -> int {
    if temp < MIN_GENERATOR_TEMPERATURE {
        0
    } else if turbine_applied > FLOW_THRESHOLD {
        efficiency_power(temp, limit)
    } else {
        efficiency_power(temp, limit) / 2
    }
}

/// Money earned (millionths of a dollar) by `power` over `delta_us`
/// microseconds: a dollar per ten megawatt-seconds.
pub open spec fn earnings(power: int, delta_us: int) -> int {
    (power * delta_us) / 10_000_000
}

/// Whether the turbine is hot enough to wear (80 % of its limit).
pub open spec fn wearing(temp: int, limit: int) -> bool {
    100 * temp >= 80 * limit
}

/// Durability lost over `delta_us` microseconds: nothing below 80 % of the
/// limit, then 5 % per second times `(share - 0.80) / 0.15`, capped at 5 % per second.
pub open spec fn durability_damage(temp: int, limit: int, delta_us: int) -> int {
    if !wearing(temp, limit) {
        0
    } else if 100 * temp >= 95 * limit {
        5 * delta_us
    } else {
        ((100 * temp - 80 * limit) * 5 * delta_us) / (15 * limit)
    }
}

/// `lo <= num / den <= hi` when `lo * den <= num <= hi * den`.
proof fn lemma_quotient_between(num: int, den: int, lo: int, hi: int)
    requires
        0 < den,
        lo * den <= num <= hi * den,
    ensures
        lo <= num / den <= hi,
{
    lemma_div_is_ordered(lo * den, num, den);
    lemma_div_is_ordered(num, hi * den, den);
    lemma_div_multiples_vanish(lo, den);
    lemma_div_multiples_vanish(hi, den);
    assert(den * lo == lo * den) by (nonlinear_arith);
    assert(den * hi == hi * den) by (nonlinear_arith);
}

/// The turbine never produces more than 100 MW, and never a negative amount.
pub proof fn lemma_efficiency_power_bounds(temp: int, limit: int)
    requires
        limit > 0,
    ensures
        0 <= efficiency_power(temp, limit) <= 100_000_000,
{
    let t = if temp < 0 { 0 } else if temp > limit { limit } else { temp };
    if 10 * t < 6 * limit {
        assert(0 * (3 * limit) <= 350_000_000 * t <= 70_000_000 * (3 * limit)) by (nonlinear_arith)
            requires
                0 <= t,
                10 * t < 6 * limit,
        ;
        lemma_quotient_between(350_000_000 * t, 3 * limit, 0, 70_000_000);
    } else if 100 * t < 85 * limit {
        assert(0 * limit <= 120_000_000 * t - 2_000_000 * limit <= 100_000_000 * limit)
            by (nonlinear_arith)
            requires
                10 * t >= 6 * limit,
                100 * t < 85 * limit,
                limit > 0,
        ;
        lemma_quotient_between(120_000_000 * t - 2_000_000 * limit, limit, 0, 100_000_000);
    } else {
        assert(0 * limit <= 270_000_000 * limit - 200_000_000 * t <= 100_000_000 * limit)
            by (nonlinear_arith)
            requires
                100 * t >= 85 * limit,
                t <= limit,
                limit > 0,
        ;
        lemma_quotient_between(270_000_000 * limit - 200_000_000 * t, limit, 0, 100_000_000);
    }
}

/// A step never wears a turbine by a negative amount, nor by more than 5 %
/// per second.
pub proof fn lemma_damage_bounds(temp: int, limit: int, delta_us: int)
    requires
        limit > 0,
        delta_us >= 0,
    ensures
        0 <= durability_damage(temp, limit, delta_us) <= 5 * delta_us,
{
    if wearing(temp, limit) && 100 * temp < 95 * limit {
        let num = (100 * temp - 80 * limit) * 5 * delta_us;
        assert(0 * (15 * limit) <= num <= (5 * delta_us) * (15 * limit)) by (nonlinear_arith)
            requires
                100 * temp >= 80 * limit,
                100 * temp < 95 * limit,
                delta_us >= 0,
                num == (100 * temp - 80 * limit) * 5 * delta_us,
        ;
        lemma_quotient_between(num, 15 * limit, 0, 5 * delta_us);
    }
}

fn efficiency_power_exec(temp: i64, limit: i64) -> (p: i64)
    requires
        limit > 0,
        limit <= UPGRADED_TURBINE_TEMP_LIMIT,
    ensures
        p == efficiency_power(temp as int, limit as int),
        0 <= p <= 100_000_000,
{
    proof {
        lemma_efficiency_power_bounds(temp as int, limit as int);
    }
    let l = limit as i128;
    let t: i128 = if temp < 0 { 0 } else if temp > limit { l } else { temp as i128 };
    let p: i128 = if 10 * t < 6 * l {
        (350_000_000 * t) / (3 * l)
    } else if 100 * t < 85 * l {
        (120_000_000 * t - 2_000_000 * l) / l
    } else {
        (270_000_000 * l - 200_000_000 * t) / l
    };
    p as i64
}

/// One step of the turbine's economy, after its temperature has moved: with
/// the turbine intact, the generator's power is set from the temperature, the
/// money grows by what that power earns over `delta_us`, and a hot turbine
/// wears; at zero durability it is destroyed. A destroyed turbine earns and
/// loses nothing here.
pub fn simulate_turbine_economy(
    turbine: &mut TurbineState,
    environment: &mut EnvironmentState,
    turbine_applied: i64,
    delta_us: i64,
)
    requires
        old(turbine).wf(),
        delta_us >= 0,
    ensures
        final(turbine).wf(),
        final(turbine).speed == old(turbine).speed,
        final(turbine).temperature == old(turbine).temperature,
        final(turbine).target_temperature == old(turbine).target_temperature,
        final(turbine).upgraded == old(turbine).upgraded,
        final(environment).fuel_left == old(environment).fuel_left,
        final(environment).money >= old(environment).money,
        final(turbine).durability <= old(turbine).durability,
        old(turbine).is_destroyed ==> final(turbine).is_destroyed,
        !old(turbine).is_destroyed ==> 0 <= final(environment).power_generated <= 100_000_000,
        !old(turbine).is_destroyed && old(turbine).temperature < MIN_GENERATOR_TEMPERATURE
            ==> final(environment).power_generated == 0,
        !old(turbine).is_destroyed && old(turbine).temperature >= MIN_GENERATOR_TEMPERATURE
            && turbine_applied > FLOW_THRESHOLD ==> final(environment).power_generated
            == efficiency_power(old(turbine).temperature as int, turbine_limit(old(turbine).upgraded)),
        !old(turbine).is_destroyed && old(turbine).temperature >= MIN_GENERATOR_TEMPERATURE
            && turbine_applied <= FLOW_THRESHOLD ==> final(environment).power_generated
            == efficiency_power(old(turbine).temperature as int, turbine_limit(old(turbine).upgraded))
            / 2,
        old(turbine).is_destroyed ==> {
            &&& final(turbine).durability == old(turbine).durability
            &&& final(turbine).is_destroyed
            &&& final(environment).money == old(environment).money
            &&& final(environment).power_generated == old(environment).power_generated
        },
        !old(turbine).is_destroyed ==> {
            let temp = old(turbine).temperature as int;
            let limit = turbine_limit(old(turbine).upgraded);
            let power = generated_power(temp, limit, turbine_applied as int);
            let gained = old(environment).money + earnings(power, delta_us as int);
            let worn = old(turbine).durability - durability_damage(temp, limit, delta_us as int);
            &&& final(environment).power_generated == power
            &&& final(environment).money == (if gained > i64::MAX { i64::MAX as int } else { gained })
            &&& final(turbine).durability == (if worn < 0 { 0 } else { worn })
            &&& final(turbine).is_destroyed == (wearing(temp, limit) && final(turbine).durability
                <= 0)
        },
{
    if turbine.is_destroyed {
        return;
    }
    let limit = turbine.temp_limit();
    let temp = turbine.temperature;
    proof {
        lemma_generated_power_bounds(temp as int, limit as int, turbine_applied as int, delta_us as int);
    }
    let base = efficiency_power_exec(temp, limit);
    let power: i64 = if temp < MIN_GENERATOR_TEMPERATURE {
        0
    } else if turbine_applied > FLOW_THRESHOLD {
        base
    } else {
        base / 2
    };
    environment.power_generated = power;

    assert(0 <= (power as int) * (delta_us as int) <= 100_000_000 * (i64::MAX as int))
        by (nonlinear_arith)
        requires
            0 <= power <= 100_000_000,
            0 <= delta_us <= i64::MAX,
    ;
    let earned: i128 = (power as i128) * (delta_us as i128) / 10_000_000;
    let gained: i128 = environment.money as i128 + earned;
    environment.money = if gained > i64::MAX as i128 { i64::MAX } else { gained as i64 };

    proof {
        lemma_damage_bounds(temp as int, limit as int, delta_us as int);
    }
    let t = temp as i128;
    let l = limit as i128;
    if 100 * t >= 80 * l {
        let damage: i128 = if 100 * t >= 95 * l {
            5 * (delta_us as i128)
        } else {
            assert(0 <= (100 * t - 80 * l) * 5 * (delta_us as int) <= 75 * l * (i64::MAX as int))
                by (nonlinear_arith)
                requires
                    100 * t >= 80 * l,
                    100 * t < 95 * l,
                    0 <= delta_us <= i64::MAX,
            ;
            (100 * t - 80 * l) * 5 * (delta_us as i128) / (15 * l)
        };
        let worn: i128 = turbine.durability as i128 - damage;
        turbine.durability = if worn < 0 { 0 } else { worn as i64 };
        if turbine.durability <= 0 {
            turbine.is_destroyed = true;
        }
    }
}

/// The generated power lies between zero and 100 MW, it is zero below 100 °C,
/// and the money it earns over a step is never negative.
pub proof fn lemma_generated_power_bounds(temp: int, limit: int, turbine_applied: int, delta_us: int)
    requires
        limit > 0,
        delta_us >= 0,
    ensures
        0 <= generated_power(temp, limit, turbine_applied) <= 100_000_000,
        temp < MIN_GENERATOR_TEMPERATURE ==> generated_power(temp, limit, turbine_applied) == 0,
        0 <= earnings(generated_power(temp, limit, turbine_applied), delta_us),
{
    lemma_efficiency_power_bounds(temp, limit);
    let p = generated_power(temp, limit, turbine_applied);
    assert(0 <= p * delta_us) by (nonlinear_arith)
        requires
            0 <= p,
            0 <= delta_us,
    ;
}

/// Whether a refuel may be bought: it costs $250 and is possible only with
/// reactivity and turbine flow set to 0 % and less than 90 % of the fuel left.
pub open spec fn can_refuel(environment: EnvironmentState, controls: ControlSettings) -> bool {
    &&& environment.money >= REFUEL_COST
    &&& controls.reactivity_target == 0
    &&& controls.turbine_target == 0
    &&& environment.fuel_left < REFUEL_FUEL_THRESHOLD
}

/// Whether the refuel service is offered with these settings.
pub fn refuel_available(environment: &EnvironmentState, controls: &ControlSettings) -> (b: bool)
    ensures
        b == can_refuel(*environment, *controls),
{
    environment.money >= REFUEL_COST && controls.reactivity_target == 0
        && controls.turbine_target == 0 && environment.fuel_left < REFUEL_FUEL_THRESHOLD
}

/// Buys a refuel when it is available: pays $250 and fills the fuel up.
/// Returns whether it was bought; otherwise nothing changes.
pub fn refuel(environment: &mut EnvironmentState, controls: &ControlSettings) -> (bought: bool)
    ensures
        bought == can_refuel(*old(environment), *controls),
        bought ==> final(environment).money == old(environment).money - REFUEL_COST,
        bought ==> final(environment).fuel_left == FULL_FUEL,
        !bought ==> final(environment).money == old(environment).money,
        !bought ==> final(environment).fuel_left == old(environment).fuel_left,
        final(environment).power_generated == old(environment).power_generated,
{
    if refuel_available(environment, controls) {
        environment.money = environment.money - REFUEL_COST;
        environment.fuel_left = FULL_FUEL;
        true
    } else {
        false
    }
}

/// Rebuilds a turbine for $200 when the money suffices: full durability,
/// no longer destroyed. Returns whether it was paid; otherwise nothing changes.
pub fn buy_back_turbine(turbine: &mut TurbineState, environment: &mut EnvironmentState) -> (bought: bool)
    ensures
        bought == (old(environment).money >= BUYBACK_COST),
        bought ==> final(environment).money == old(environment).money - BUYBACK_COST,
        bought ==> final(turbine).durability == FULL_DURABILITY,
        bought ==> !final(turbine).is_destroyed,
        !bought ==> final(environment).money == old(environment).money,
        !bought ==> final(turbine).durability == old(turbine).durability,
        !bought ==> final(turbine).is_destroyed == old(turbine).is_destroyed,
        final(turbine).temperature == old(turbine).temperature,
        final(turbine).speed == old(turbine).speed,
        final(turbine).target_temperature == old(turbine).target_temperature,
        final(turbine).upgraded == old(turbine).upgraded,
        final(environment).fuel_left == old(environment).fuel_left,
        final(environment).power_generated == old(environment).power_generated,
{
    if environment.money >= BUYBACK_COST {
        environment.money = environment.money - BUYBACK_COST;
        turbine.durability = FULL_DURABILITY;
        turbine.is_destroyed = false;
        true
    } else {
        false
    }
}

/// Buys the one-time turbine upgrade for $500, raising the turbine's limit
/// from 290 °C to 350 °C. Returns whether it was bought; otherwise nothing changes.
pub fn buy_turbine_upgrade(turbine: &mut TurbineState, environment: &mut EnvironmentState) -> (bought: bool)
    ensures
        bought == (!old(turbine).upgraded && old(environment).money >= TURBINE_UPGRADE_COST),
        bought ==> final(environment).money == old(environment).money - TURBINE_UPGRADE_COST,
        !bought ==> final(environment).money == old(environment).money,
        final(turbine).upgraded == (old(turbine).upgraded || bought),
        final(turbine).temperature == old(turbine).temperature,
        final(turbine).speed == old(turbine).speed,
        final(turbine).target_temperature == old(turbine).target_temperature,
        final(turbine).durability == old(turbine).durability,
        final(turbine).is_destroyed == old(turbine).is_destroyed,
        final(environment).fuel_left == old(environment).fuel_left,
        final(environment).power_generated == old(environment).power_generated,
{
    if !turbine.upgraded && environment.money >= TURBINE_UPGRADE_COST {
        environment.money = environment.money - TURBINE_UPGRADE_COST;
        turbine.upgraded = true;
        true
    } else {
        false
    }
}

/// How a reactor state ends the game: a melting core first, then an
/// exploding vessel, then an overheated turbine; `NoLoss` while all are safe.
pub open spec fn loss_reason(reactor_temp: int, reactor_pressure: int, turbine_temp: int, turbine_limit: int) -> GameOverReason {
    if reactor_temp >= REACTOR_TEMP_LIMIT {
        GameOverReason::ReactorMeltdown
    } else if reactor_pressure >= REACTOR_PRESSURE_LIMIT {
        GameOverReason::ReactorExplosion
    } else if turbine_temp >= turbine_limit {
        GameOverReason::TurbineOverheat
    } else {
        GameOverReason::NoLoss
    }
}

/// Decides whether the game is lost, and why.
pub fn evaluate_loss(reactor: &ReactorState, turbine: &TurbineState) -> (r: GameOverReason)
    ensures
        r == loss_reason(
            reactor.temperature as int,
            reactor.pressure as int,
            turbine.temperature as int,
            turbine_limit(turbine.upgraded),
        ),
        reactor.temperature >= REACTOR_TEMP_LIMIT ==> r == GameOverReason::ReactorMeltdown,
        reactor.temperature < REACTOR_TEMP_LIMIT && reactor.pressure >= REACTOR_PRESSURE_LIMIT ==> r
            == GameOverReason::ReactorExplosion,
        reactor.temperature < REACTOR_TEMP_LIMIT && reactor.pressure < REACTOR_PRESSURE_LIMIT
            && turbine.temperature >= turbine_limit(turbine.upgraded) ==> r
            == GameOverReason::TurbineOverheat,
        reactor.temperature < REACTOR_TEMP_LIMIT && reactor.pressure < REACTOR_PRESSURE_LIMIT
            && turbine.temperature < turbine_limit(turbine.upgraded) ==> r == GameOverReason::NoLoss,
{
    if reactor.temperature >= REACTOR_TEMP_LIMIT {
        GameOverReason::ReactorMeltdown
    } else if reactor.pressure >= REACTOR_PRESSURE_LIMIT {
        GameOverReason::ReactorExplosion
    } else if turbine.temperature >= turbine.temp_limit() {
        GameOverReason::TurbineOverheat
    } else {
        GameOverReason::NoLoss
    }
}

/// The efficiency rises with the turbine's temperature up to 85 % of its limit.
pub proof fn lemma_efficiency_rises_to_sweet_spot(t1: int, t2: int, limit: int)
    requires
        limit > 0,
        t1 <= t2,
        100 * t2 < 85 * limit,
    ensures
        efficiency_power(t1, limit) <= efficiency_power(t2, limit),
{
    let a = if t1 < 0 { 0 } else { t1 };
    let b = if t2 < 0 { 0 } else { t2 };
    assert(a <= b);
    if 10 * b < 6 * limit {
        assert(350_000_000 * a <= 350_000_000 * b) by (nonlinear_arith)
            requires
                a <= b,
        ;
        lemma_div_is_ordered(350_000_000 * a, 350_000_000 * b, 3 * limit);
    } else if 10 * a >= 6 * limit {
        assert(120_000_000 * a - 2_000_000 * limit <= 120_000_000 * b - 2_000_000 * limit)
            by (nonlinear_arith)
            requires
                a <= b,
        ;
        lemma_div_is_ordered(
            120_000_000 * a - 2_000_000 * limit,
            120_000_000 * b - 2_000_000 * limit,
            limit,
        );
    } else {
        assert(0 <= 350_000_000 * a <= 70_000_000 * (3 * limit)) by (nonlinear_arith)
            requires
                0 <= a,
                10 * a < 6 * limit,
        ;
        lemma_quotient_between(350_000_000 * a, 3 * limit, 0, 70_000_000);
        assert(70_000_000 * limit <= 120_000_000 * b - 2_000_000 * limit <= 100_000_000 * limit)
            by (nonlinear_arith)
            requires
                10 * b >= 6 * limit,
                100 * b < 85 * limit,
        ;
        lemma_quotient_between(120_000_000 * b - 2_000_000 * limit, limit, 70_000_000, 100_000_000);
    }
}

/// The efficiency falls as the turbine heats beyond 85 % of its limit.
pub proof fn lemma_efficiency_falls_past_sweet_spot(t1: int, t2: int, limit: int)
    requires
        limit > 0,
        t1 <= t2,
        100 * t1 >= 85 * limit,
    ensures
        efficiency_power(t1, limit) >= efficiency_power(t2, limit),
{
    let a = if t1 > limit { limit } else { t1 };
    let b = if t2 > limit { limit } else { t2 };
    assert(a <= b);
    assert(270_000_000 * limit - 200_000_000 * b <= 270_000_000 * limit - 200_000_000 * a)
        by (nonlinear_arith)
        requires
            a <= b,
    ;
    lemma_div_is_ordered(
        270_000_000 * limit - 200_000_000 * b,
        270_000_000 * limit - 200_000_000 * a,
        limit,
    );
}

/// At 85 % of either limit the turbine runs at full efficiency: 100 MW.
pub proof fn lemma_sweet_spot_gives_full_power()
    ensures
        efficiency_power(246_500_000, TURBINE_TEMP_LIMIT as int) == 100_000_000,
        efficiency_power(297_500_000, UPGRADED_TURBINE_TEMP_LIMIT as int) == 100_000_000,
{
    lemma_div_multiples_vanish(100_000_000, TURBINE_TEMP_LIMIT as int);
    lemma_div_multiples_vanish(100_000_000, UPGRADED_TURBINE_TEMP_LIMIT as int);
}

/// The game is lost exactly when a limit is reached: the reactor's
/// temperature or pressure limit, or the turbine's temperature limit.
pub proof fn lemma_loss_iff_limit_reached(
    reactor_temp: int,
    reactor_pressure: int,
    turbine_temp: int,
    limit: int,
)
    ensures
        (loss_reason(reactor_temp, reactor_pressure, turbine_temp, limit) != GameOverReason::NoLoss)
            == (reactor_temp >= REACTOR_TEMP_LIMIT || reactor_pressure >= REACTOR_PRESSURE_LIMIT
            || turbine_temp >= limit),
{
}

/// The durability left after economy steps of the given lengths at a
/// constant temperature (see `simulate_turbine_economy`).
pub open spec fn durability_after_steps(durability: int, temp: int, limit: int, deltas: Seq<int>) -> int
    decreases deltas.len(),
{
    if deltas.len() == 0 {
        durability
    } else {
        let before = durability_after_steps(durability, temp, limit, deltas.drop_last());
        let worn = before - durability_damage(temp, limit, deltas.last());
        if worn < 0 { 0 } else { worn }
    }
}

/// The total length of a series of steps.
pub open spec fn total_time(deltas: Seq<int>) -> int
    decreases deltas.len(),
{
    if deltas.len() == 0 { 0 } else { total_time(deltas.drop_last()) + deltas.last() }
}

/// A turbine kept at 95 % of its limit or more loses 5 % of durability per
/// second, so twenty seconds there leave nothing of it.
pub proof fn lemma_overheated_turbine_breaks(durability: int, temp: int, limit: int, deltas: Seq<int>)
    requires
        limit > 0,
        100 * temp >= 95 * limit,
        0 <= durability <= FULL_DURABILITY,
        forall|i: int| 0 <= i < deltas.len() ==> deltas[i] >= 0,
    ensures
        durability_after_steps(durability, temp, limit, deltas) == (if durability - 5 * total_time(deltas) < 0 {
            0
        } else {
            durability - 5 * total_time(deltas)
        }),
        total_time(deltas) >= 20_000_000 ==> durability_after_steps(durability, temp, limit, deltas) == 0,
    decreases deltas.len(),
{
    if deltas.len() > 0 {
        let rest = deltas.drop_last();
        assert forall|i: int| 0 <= i < rest.len() implies rest[i] >= 0 by {
            assert(rest[i] == deltas[i]);
        }
        lemma_overheated_turbine_breaks(durability, temp, limit, rest);
        lemma_total_time_nonnegative(rest);
        assert(deltas.last() == deltas[deltas.len() - 1]);
    }
}

proof fn lemma_total_time_nonnegative(deltas: Seq<int>)
    requires
        forall|i: int| 0 <= i < deltas.len() ==> deltas[i] >= 0,
    ensures
        total_time(deltas) >= 0,
    decreases deltas.len(),
{
    if deltas.len() > 0 {
        let rest = deltas.drop_last();
        assert forall|i: int| 0 <= i < rest.len() implies rest[i] >= 0 by {
            assert(rest[i] == deltas[i]);
        }
        lemma_total_time_nonnegative(rest);
        assert(deltas.last() == deltas[deltas.len() - 1]);
    }
}

/// Any water flow above 1 % gives the turbine's full efficiency power, however
/// much flows; at 1 % or less the power is halved. Below 100 °C there is none.
pub proof fn lemma_flow_only_matters_above_one_percent(temp: int, limit: int, flow_a: int, flow_b: int)
    requires
        limit > 0,
    ensures
        temp >= MIN_GENERATOR_TEMPERATURE && flow_a > FLOW_THRESHOLD ==> generated_power(temp, limit, flow_a)
            == efficiency_power(temp, limit),
        temp >= MIN_GENERATOR_TEMPERATURE && flow_a <= FLOW_THRESHOLD ==> generated_power(temp, limit, flow_a)
            == efficiency_power(temp, limit) / 2,
        flow_a > FLOW_THRESHOLD && flow_b > FLOW_THRESHOLD ==> generated_power(temp, limit, flow_a)
            == generated_power(temp, limit, flow_b),
        flow_a <= FLOW_THRESHOLD && flow_b <= FLOW_THRESHOLD ==> generated_power(temp, limit, flow_a)
            == generated_power(temp, limit, flow_b),
        temp < MIN_GENERATOR_TEMPERATURE ==> generated_power(temp, limit, flow_a) == 0,
{
}

} // verus!

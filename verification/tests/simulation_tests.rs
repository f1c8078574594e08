use reactor_sim::simulation::{
    buy_back_turbine, buy_turbine_upgrade, evaluate_loss, refuel, refuel_available,
    simulate_turbine_economy, ControlSettings, EnvironmentState, GameOverReason, ReactorState,
    TurbineState, FULL_DURABILITY, FULL_FUEL, STARTING_MONEY,
};

fn turbine_at(temperature: i64) -> TurbineState {
    TurbineState { temperature, ..TurbineState::default() }
}

#[test]
fn defaults_match_a_fresh_game() {
    let reactor = ReactorState::default();
    assert_eq!(reactor.temperature, 20_000_000);
    assert_eq!(reactor.pressure, 1_000_000);
    let turbine = TurbineState::default();
    assert_eq!(turbine.durability, FULL_DURABILITY);
    assert!(!turbine.is_destroyed && !turbine.upgraded);
    assert_eq!(turbine.temp_limit(), 290_000_000);
    let environment = EnvironmentState::default();
    assert_eq!(environment.money, 1_000_000_000);
    assert_eq!(environment.fuel_left, FULL_FUEL);
    assert_eq!(GameOverReason::default(), GameOverReason::NoLoss);
    let controls = ControlSettings::default();
    assert_eq!(controls.reactivity_target + controls.turbine_target, 0);
}

#[test]
fn sweet_spot_gives_full_power_and_wears() {
    let mut turbine = turbine_at(246_500_000);
    let mut environment = EnvironmentState::default();
    simulate_turbine_economy(&mut turbine, &mut environment, 50_000_000, 1_000_000);
    assert_eq!(environment.power_generated, 100_000_000);
    assert_eq!(environment.money, STARTING_MONEY + 10_000_000);
    assert_eq!(turbine.durability, 100_000_000 - 1_666_666);
    assert!(!turbine.is_destroyed);
}

#[test]
fn power_curve_branches() {
    let mut environment = EnvironmentState::default();
    let mut turbine = turbine_at(200_000_000);
    simulate_turbine_economy(&mut turbine, &mut environment, 50_000_000, 0);
    assert_eq!(environment.power_generated, 80_758_620);
    let mut turbine = turbine_at(150_000_000);
    simulate_turbine_economy(&mut turbine, &mut environment, 50_000_000, 0);
    assert_eq!(environment.power_generated, 60_344_827);
    let mut turbine = turbine_at(150_000_000);
    simulate_turbine_economy(&mut turbine, &mut environment, 0, 0);
    assert_eq!(environment.power_generated, 30_172_413);
    let mut turbine = turbine_at(290_000_000);
    simulate_turbine_economy(&mut turbine, &mut environment, 50_000_000, 0);
    assert_eq!(environment.power_generated, 70_000_000);
}

#[test]
fn no_power_below_one_hundred_degrees() {
    let mut turbine = turbine_at(99_999_999);
    let mut environment = EnvironmentState::default();
    simulate_turbine_economy(&mut turbine, &mut environment, 100_000_000, 5_000_000);
    assert_eq!(environment.power_generated, 0);
    assert_eq!(environment.money, STARTING_MONEY);
    assert_eq!(turbine.durability, FULL_DURABILITY);
}

#[test]
fn overheated_turbine_is_destroyed() {
    let mut turbine = TurbineState { temperature: 280_000_000, durability: 3_000_000, ..TurbineState::default() };
    let mut environment = EnvironmentState::default();
    simulate_turbine_economy(&mut turbine, &mut environment, 50_000_000, 1_000_000);
    assert_eq!(turbine.durability, 0);
    assert!(turbine.is_destroyed);
    let money = environment.money;
    let power = environment.power_generated;
    simulate_turbine_economy(&mut turbine, &mut environment, 50_000_000, 1_000_000);
    assert!(turbine.is_destroyed);
    assert_eq!(environment.money, money);
    assert_eq!(environment.power_generated, power);
}

#[test]
fn upgraded_turbine_wears_later() {
    let mut turbine = TurbineState { temperature: 240_000_000, upgraded: true, ..TurbineState::default() };
    let mut environment = EnvironmentState::default();
    simulate_turbine_economy(&mut turbine, &mut environment, 50_000_000, 1_000_000);
    assert_eq!(turbine.durability, FULL_DURABILITY);
    let mut plain = turbine_at(240_000_000);
    simulate_turbine_economy(&mut plain, &mut environment, 50_000_000, 1_000_000);
    assert!(plain.durability < FULL_DURABILITY);
}

#[test]
fn money_saturates() {
    let mut turbine = turbine_at(246_500_000);
    let mut environment = EnvironmentState { money: i64::MAX - 5, ..EnvironmentState::default() };
    simulate_turbine_economy(&mut turbine, &mut environment, 50_000_000, 1_000_000);
    assert_eq!(environment.money, i64::MAX);
}

#[test]
fn buy_back_needs_two_hundred_dollars() {
    let mut turbine = TurbineState { durability: 0, is_destroyed: true, ..TurbineState::default() };
    let mut poor = EnvironmentState { money: 150_000_000, ..EnvironmentState::default() };
    assert!(!buy_back_turbine(&mut turbine, &mut poor));
    assert!(turbine.is_destroyed);
    assert_eq!(poor.money, 150_000_000);
    let mut environment = EnvironmentState { money: 300_000_000, ..EnvironmentState::default() };
    assert!(buy_back_turbine(&mut turbine, &mut environment));
    assert!(!turbine.is_destroyed);
    assert_eq!(turbine.durability, FULL_DURABILITY);
    assert_eq!(environment.money, 100_000_000);
}

#[test]
fn upgrade_is_bought_once() {
    let mut turbine = TurbineState::default();
    let mut environment = EnvironmentState { money: 1_200_000_000, ..EnvironmentState::default() };
    assert!(buy_turbine_upgrade(&mut turbine, &mut environment));
    assert!(turbine.upgraded);
    assert_eq!(turbine.temp_limit(), 350_000_000);
    assert_eq!(environment.money, 700_000_000);
    assert!(!buy_turbine_upgrade(&mut turbine, &mut environment));
    assert_eq!(environment.money, 700_000_000);
    let mut other = TurbineState::default();
    let mut poor = EnvironmentState { money: 499_000_000, ..EnvironmentState::default() };
    assert!(!buy_turbine_upgrade(&mut other, &mut poor));
    assert!(!other.upgraded);
}

#[test]
fn refuel_rules() {
    let idle = ControlSettings::default();
    let mut full = EnvironmentState::default();
    assert!(!refuel_available(&full, &idle));
    assert!(!refuel(&mut full, &idle));
    let mut low = EnvironmentState { fuel_left: 500_000, ..EnvironmentState::default() };
    let running = ControlSettings { reactivity_target: 10_000_000, ..ControlSettings::default() };
    assert!(!refuel(&mut low, &running));
    let flowing = ControlSettings { turbine_target: 1, ..ControlSettings::default() };
    assert!(!refuel(&mut low, &flowing));
    assert!(refuel(&mut low, &idle));
    assert_eq!(low.fuel_left, FULL_FUEL);
    assert_eq!(low.money, 750_000_000);
    let mut poor = EnvironmentState { money: 249_999_999, fuel_left: 0, ..EnvironmentState::default() };
    assert!(!refuel(&mut poor, &idle));
    let mut edge = EnvironmentState { fuel_left: 900_000, ..EnvironmentState::default() };
    assert!(!refuel(&mut edge, &idle));
}

#[test]
fn loss_reasons_in_order() {
    let turbine = TurbineState::default();
    assert_eq!(evaluate_loss(&ReactorState::default(), &turbine), GameOverReason::NoLoss);
    let melting = ReactorState { temperature: 1_200_000_000, pressure: 200_000_000 };
    assert_eq!(evaluate_loss(&melting, &turbine), GameOverReason::ReactorMeltdown);
    let bursting = ReactorState { temperature: 1_000_000_000, pressure: 160_000_000 };
    assert_eq!(evaluate_loss(&bursting, &turbine), GameOverReason::ReactorExplosion);
    let calm = ReactorState { temperature: 1_199_999_999, pressure: 159_999_999 };
    assert_eq!(evaluate_loss(&calm, &turbine), GameOverReason::NoLoss);
    assert_eq!(evaluate_loss(&calm, &turbine_at(290_000_000)), GameOverReason::TurbineOverheat);
    let upgraded = TurbineState { temperature: 300_000_000, upgraded: true, ..TurbineState::default() };
    assert_eq!(evaluate_loss(&calm, &upgraded), GameOverReason::NoLoss);
}

#[test]
fn game_over_lines() {
    assert_eq!(GameOverReason::ReactorExplosion.text(), "EKSPLOZJA REAKTORA");
    assert_eq!(GameOverReason::ReactorMeltdown.text(), "ROZPAD REAKTORA");
    assert_eq!(GameOverReason::TurbineOverheat.text(), "PRZEGRZANIE TURBINY");
    assert_eq!(GameOverReason::NoLoss.text(), "Nieznana przyczyna");
}

#[test]
fn twenty_seconds_at_the_limit_break_the_turbine() {
    let mut turbine = turbine_at(280_000_000);
    let mut environment = EnvironmentState::default();
    for second in 1..=20 {
        assert!(!turbine.is_destroyed);
        simulate_turbine_economy(&mut turbine, &mut environment, 50_000_000, 1_000_000);
        assert_eq!(turbine.durability, 100_000_000 - 5_000_000 * second);
    }
    assert!(turbine.is_destroyed);
}

use reactor_sim::buttons::{
    handle_refuel_button, menu_button_action, refuel_button_look, ButtonLook, Interaction,
    MenuAction, MenuButton,
};
use reactor_sim::game_state::{GameState, PauseState};
use reactor_sim::refuel_animation::{RefuelAnimationState, RefuelPhase};
use reactor_sim::simulation::{ControlSettings, EnvironmentState};

#[test]
fn pause_and_resume_return_to_the_same_screen() {
    let mut pause = PauseState::default();
    assert_eq!(pause.resume_target(), GameState::InGame);
    assert_eq!(pause.pause_from(GameState::Tutorial), GameState::Paused);
    assert_eq!(pause.resume_target(), GameState::Tutorial);
    assert_eq!(pause.pause_from(GameState::InGame), GameState::Paused);
    assert_eq!(pause.resume_target(), GameState::InGame);
}

#[test]
fn escape_on_the_pause_screen_resumes() {
    let mut pause = PauseState::default();
    assert_eq!(pause.pause_from(GameState::Tutorial), GameState::Paused);
    assert_eq!(pause.pause_from(GameState::Paused), GameState::Tutorial);
    assert_eq!(pause.previous_state, Some(GameState::Tutorial));
    let mut fresh = PauseState::default();
    assert_eq!(fresh.pause_from(GameState::Paused), GameState::InGame);
    assert_eq!(fresh.previous_state, None);
}

#[test]
fn pause_screen_falls_back_to_the_game() {
    let mut pause = PauseState::default();
    pause.ensure_previous();
    assert_eq!(pause.previous_state, Some(GameState::InGame));
    let mut tutorial = PauseState { previous_state: Some(GameState::Tutorial) };
    tutorial.ensure_previous();
    assert_eq!(tutorial.previous_state, Some(GameState::Tutorial));
    assert_eq!(GameState::default(), GameState::MainMenu);
}

#[test]
fn menu_buttons() {
    assert_eq!(menu_button_action(MenuButton::Play, Interaction::Pressed), Some(MenuAction::Enter(GameState::InGame)));
    assert_eq!(menu_button_action(MenuButton::Quit, Interaction::Pressed), Some(MenuAction::Exit));
    assert_eq!(menu_button_action(MenuButton::Credits, Interaction::Pressed), Some(MenuAction::Enter(GameState::Credits)));
    assert_eq!(menu_button_action(MenuButton::Tutorial, Interaction::Pressed), Some(MenuAction::Enter(GameState::Tutorial)));
    assert_eq!(menu_button_action(MenuButton::Settings, Interaction::Pressed), Some(MenuAction::Enter(GameState::Settings)));
    assert_eq!(menu_button_action(MenuButton::Back, Interaction::Pressed), Some(MenuAction::Enter(GameState::MainMenu)));
    assert_eq!(menu_button_action(MenuButton::ReturnToMenu, Interaction::Pressed), Some(MenuAction::Enter(GameState::MainMenu)));
    assert_eq!(menu_button_action(MenuButton::Play, Interaction::Hovered), None);
    assert_eq!(menu_button_action(MenuButton::Quit, Interaction::Untouched), None);
}

#[test]
fn refuel_button() {
    let idle = ControlSettings::default();
    let low = EnvironmentState { fuel_left: 400_000, ..EnvironmentState::default() };
    let poor = EnvironmentState { money: 249_999_999, fuel_left: 0, ..EnvironmentState::default() };
    assert_eq!(refuel_button_look(&poor, Interaction::Hovered), ButtonLook::Disabled);
    assert_eq!(refuel_button_look(&poor, Interaction::Untouched), ButtonLook::Disabled);
    assert_eq!(refuel_button_look(&EnvironmentState::default(), Interaction::Hovered), ButtonLook::Hovered);
    assert_eq!(refuel_button_look(&low, Interaction::Hovered), ButtonLook::Hovered);
    assert_eq!(refuel_button_look(&low, Interaction::Pressed), ButtonLook::Pressed);
    assert_eq!(refuel_button_look(&low, Interaction::Untouched), ButtonLook::Normal);
    let exactly = EnvironmentState { money: 250_000_000, ..EnvironmentState::default() };
    assert_eq!(refuel_button_look(&exactly, Interaction::Untouched), ButtonLook::Normal);

    let mut environment = EnvironmentState { fuel_left: 400_000, ..EnvironmentState::default() };
    let mut animation = RefuelAnimationState::default();
    assert!(!handle_refuel_button(Interaction::Hovered, &mut environment, &idle, &mut animation));
    assert_eq!(animation.phase, RefuelPhase::Idle);
    assert!(handle_refuel_button(Interaction::Pressed, &mut environment, &idle, &mut animation));
    assert_eq!(animation.phase, RefuelPhase::Raising);
    assert_eq!(environment.money, 750_000_000);
    assert_eq!(environment.fuel_left, 1_000_000);
    assert!(!handle_refuel_button(Interaction::Pressed, &mut environment, &idle, &mut animation));
    assert_eq!(environment.money, 750_000_000);
}

use reactor_sim::buttons::{menu_button_color, refuel_button_colors, slider_thumb_color, MenuButtonStyle};
use reactor_sim::gauges::Rgba;

fn opaque(red: i64, green: i64, blue: i64) -> Rgba {
    Rgba { red, green, blue, alpha: 1_000_000 }
}

#[test]
fn menu_button_colours() {
    assert_eq!(menu_button_color(MenuButtonStyle::Play, Interaction::Untouched), opaque(250_000, 750_000, 250_000));
    assert_eq!(menu_button_color(MenuButtonStyle::Quit, Interaction::Hovered), opaque(850_000, 450_000, 450_000));
    assert_eq!(menu_button_color(MenuButtonStyle::Tutorial, Interaction::Pressed), opaque(300_000, 500_000, 700_000));
    assert_eq!(menu_button_color(MenuButtonStyle::Plain, Interaction::Hovered), opaque(350_000, 350_000, 350_000));
}

#[test]
fn refuel_and_slider_colours() {
    let (bg, border) = refuel_button_colors(ButtonLook::Disabled);
    assert_eq!(bg, Rgba { red: 50_000, green: 50_000, blue: 80_000, alpha: 700_000 });
    assert_eq!(border, Rgba { red: 300_000, green: 300_000, blue: 300_000, alpha: 400_000 });
    let (bg, _) = refuel_button_colors(ButtonLook::Pressed);
    assert_eq!(bg.alpha, 1_000_000);
    assert_eq!(slider_thumb_color(true, true, true), opaque(500_000, 500_000, 500_000));
    assert_eq!(slider_thumb_color(false, false, true), opaque(1_000_000, 650_000, 300_000));
    assert_eq!(slider_thumb_color(false, false, false), opaque(950_000, 550_000, 200_000));
}

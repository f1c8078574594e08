use vstd::prelude::*;

use crate::game_state::GameState;
use crate::gauges::{Rgba, FULL_CHANNEL};
use crate::refuel_animation::{RefuelAnimationState, RefuelPhase};
use crate::simulation::{can_refuel, refuel, ControlSettings, EnvironmentState, REFUEL_COST};

verus! {

/// The pointer's relation to a button.
#[derive(Clone, Copy, PartialEq, Eq, Structural, Debug)]
pub enum Interaction {
    Pressed,
    Hovered,
    Untouched,
}

/// How a button is drawn.
#[derive(Clone, Copy, PartialEq, Eq, Structural, Debug)]
pub enum ButtonLook {
    Disabled,
    Pressed,
    Hovered,
    Normal,
}

/// The look of the refuel button: greyed out while the money does not cover
/// the refuel's price, otherwise following the pointer.
pub fn refuel_button_look(
    environment: &EnvironmentState,
    interaction: Interaction,
) -> (look: ButtonLook)
    ensures
        environment.money < REFUEL_COST ==> look == ButtonLook::Disabled,
        environment.money >= REFUEL_COST ==> look == match interaction {
            Interaction::Pressed => ButtonLook::Pressed,
            Interaction::Hovered => ButtonLook::Hovered,
            Interaction::Untouched => ButtonLook::Normal,
        },
{
    if environment.money < REFUEL_COST {
        ButtonLook::Disabled
    } else {
        match interaction {
            Interaction::Pressed => ButtonLook::Pressed,
            Interaction::Hovered => ButtonLook::Hovered,
            Interaction::Untouched => ButtonLook::Normal,
        }
    }
}

/// The refuel button under the pointer: a press buys the refuel when it is
/// available and starts the refuel animation. Returns whether it was bought.
pub fn handle_refuel_button(
    interaction: Interaction,
    environment: &mut EnvironmentState,
    controls: &ControlSettings,
    animation: &mut RefuelAnimationState,
) -> (bought: bool)
    ensures
        bought == (interaction == Interaction::Pressed && can_refuel(*old(environment), *controls)),
        bought ==> final(environment).money == old(environment).money - crate::simulation::REFUEL_COST,
        bought ==> final(environment).fuel_left == crate::simulation::FULL_FUEL,
        bought ==> final(animation).phase == RefuelPhase::Raising && final(animation).elapsed_us == 0
            && final(animation).extra_offset == 0 && final(animation).wf(),
        !bought ==> final(environment).money == old(environment).money,
        !bought ==> final(environment).fuel_left == old(environment).fuel_left,
        !bought ==> *final(animation) == *old(animation),
        final(environment).power_generated == old(environment).power_generated,
{
    if interaction == Interaction::Pressed && refuel(environment, controls) {
        animation.trigger();
        true
    } else {
        false
    }
}

/// The buttons of the menus.
#[derive(Clone, Copy, PartialEq, Eq, Structural, Debug)]
pub enum MenuButton {
    Play,
    Quit,
    Credits,
    Tutorial,
    Settings,
    Back,
    ReturnToMenu,
}

/// What a pressed menu button does.
#[derive(Clone, Copy, PartialEq, Eq, Structural, Debug)]
pub enum MenuAction {
    Enter(GameState),
    Exit,
}

/// The action of a menu button: play starts the game, the tutorial, credits
/// and settings buttons open their screens, back and return lead to the main
/// menu, quit leaves the program.
pub open spec fn menu_action_of(button: MenuButton) -> MenuAction {
    match button {
        MenuButton::Play => MenuAction::Enter(GameState::InGame),
        MenuButton::Quit => MenuAction::Exit,
        MenuButton::Credits => MenuAction::Enter(GameState::Credits),
        MenuButton::Tutorial => MenuAction::Enter(GameState::Tutorial),
        MenuButton::Settings => MenuAction::Enter(GameState::Settings),
        MenuButton::Back => MenuAction::Enter(GameState::MainMenu),
        MenuButton::ReturnToMenu => MenuAction::Enter(GameState::MainMenu),
    }
}

/// What a menu button does: only a press acts.
pub fn menu_button_action(button: MenuButton, interaction: Interaction) -> (action: Option<MenuAction>)
    ensures
        interaction == Interaction::Pressed ==> action == Some(menu_action_of(button)),
        interaction != Interaction::Pressed ==> action is None,
{
    if interaction != Interaction::Pressed {
        return None;
    }
    Some(
        match button {
            MenuButton::Play => MenuAction::Enter(GameState::InGame),
            MenuButton::Quit => MenuAction::Exit,
            MenuButton::Credits => MenuAction::Enter(GameState::Credits),
            MenuButton::Tutorial => MenuAction::Enter(GameState::Tutorial),
            MenuButton::Settings => MenuAction::Enter(GameState::Settings),
            MenuButton::Back => MenuAction::Enter(GameState::MainMenu),
            MenuButton::ReturnToMenu => MenuAction::Enter(GameState::MainMenu),
        },
    )
}

/// An opaque colour from its three channels (millionths).
pub open spec fn opaque(red: int, green: int, blue: int) -> Rgba {
    Rgba { red: red as i64, green: green as i64, blue: blue as i64, alpha: FULL_CHANNEL }
}

fn opaque_exec(red: i64, green: i64, blue: i64) -> (c: Rgba)
    ensures
        c == opaque(red as int, green as int, blue as int),
{
    Rgba { red, green, blue, alpha: FULL_CHANNEL }
}

/// The colour families of the main menu's buttons.
#[derive(Clone, Copy, PartialEq, Eq, Structural, Debug)]
pub enum MenuButtonStyle {
    Play,
    Quit,
    Tutorial,
    Plain,
}

/// The colours of a menu button (normal, hovered, pressed): green for play,
/// red for quit, blue for the tutorial, grey for the others.
pub open spec fn menu_palette(style: MenuButtonStyle) -> (Rgba, Rgba, Rgba) {
    match style {
        MenuButtonStyle::Play => (
            opaque(250_000, 750_000, 250_000),
            opaque(450_000, 850_000, 450_000),
            opaque(350_000, 650_000, 350_000),
        ),
        MenuButtonStyle::Quit => (
            opaque(750_000, 250_000, 250_000),
            opaque(850_000, 450_000, 450_000),
            opaque(650_000, 350_000, 350_000),
        ),
        MenuButtonStyle::Tutorial => (
            opaque(200_000, 400_000, 800_000),
            opaque(400_000, 600_000, 900_000),
            opaque(300_000, 500_000, 700_000),
        ),
        MenuButtonStyle::Plain => (
            opaque(200_000, 200_000, 200_000),
            opaque(350_000, 350_000, 350_000),
            opaque(150_000, 150_000, 150_000),
        ),
    }
}

/// The background of a menu button under the pointer.
pub fn menu_button_color(style: MenuButtonStyle, interaction: Interaction) -> (c: Rgba)
    ensures
        c == match interaction {
            Interaction::Untouched => menu_palette(style).0,
            Interaction::Hovered => menu_palette(style).1,
            Interaction::Pressed => menu_palette(style).2,
        },
{
    let (normal, hovered, pressed) = match style {
        MenuButtonStyle::Play => (
            opaque_exec(250_000, 750_000, 250_000),
            opaque_exec(450_000, 850_000, 450_000),
            opaque_exec(350_000, 650_000, 350_000),
        ),
        MenuButtonStyle::Quit => (
            opaque_exec(750_000, 250_000, 250_000),
            opaque_exec(850_000, 450_000, 450_000),
            opaque_exec(650_000, 350_000, 350_000),
        ),
        MenuButtonStyle::Tutorial => (
            opaque_exec(200_000, 400_000, 800_000),
            opaque_exec(400_000, 600_000, 900_000),
            opaque_exec(300_000, 500_000, 700_000),
        ),
        MenuButtonStyle::Plain => (
            opaque_exec(200_000, 200_000, 200_000),
            opaque_exec(350_000, 350_000, 350_000),
            opaque_exec(150_000, 150_000, 150_000),
        ),
    };
    match interaction {
        Interaction::Untouched => normal,
        Interaction::Hovered => hovered,
        Interaction::Pressed => pressed,
    }
}

/// The background and border of the refuel button for each look.
pub open spec fn refuel_palette(look: ButtonLook) -> (Rgba, Rgba) {
    match look {
        ButtonLook::Normal => (
            Rgba { red: 80_000, green: 80_000, blue: 120_000, alpha: 900_000 },
            Rgba { red: 950_000, green: 800_000, blue: 300_000, alpha: 750_000 },
        ),
        ButtonLook::Hovered => (
            Rgba { red: 120_000, green: 120_000, blue: 160_000, alpha: 950_000 },
            Rgba { red: 1_000_000, green: 900_000, blue: 400_000, alpha: 900_000 },
        ),
        ButtonLook::Pressed => (
            Rgba { red: 60_000, green: 60_000, blue: 100_000, alpha: 1_000_000 },
            Rgba { red: 850_000, green: 700_000, blue: 250_000, alpha: 1_000_000 },
        ),
        ButtonLook::Disabled => (
            Rgba { red: 50_000, green: 50_000, blue: 80_000, alpha: 700_000 },
            Rgba { red: 300_000, green: 300_000, blue: 300_000, alpha: 400_000 },
        ),
    }
}

/// The background and border colours of the refuel button.
pub fn refuel_button_colors(look: ButtonLook) -> (c: (Rgba, Rgba))
    ensures
        c == refuel_palette(look),
{
    match look {
        ButtonLook::Normal => (
            Rgba { red: 80_000, green: 80_000, blue: 120_000, alpha: 900_000 },
            Rgba { red: 950_000, green: 800_000, blue: 300_000, alpha: 750_000 },
        ),
        ButtonLook::Hovered => (
            Rgba { red: 120_000, green: 120_000, blue: 160_000, alpha: 950_000 },
            Rgba { red: 1_000_000, green: 900_000, blue: 400_000, alpha: 900_000 },
        ),
        ButtonLook::Pressed => (
            Rgba { red: 60_000, green: 60_000, blue: 100_000, alpha: 1_000_000 },
            Rgba { red: 850_000, green: 700_000, blue: 250_000, alpha: 1_000_000 },
        ),
        ButtonLook::Disabled => (
            Rgba { red: 50_000, green: 50_000, blue: 80_000, alpha: 700_000 },
            Rgba { red: 300_000, green: 300_000, blue: 300_000, alpha: 400_000 },
        ),
    }
}

/// The colour of a slider's thumb: grey when disabled, brighter while
/// hovered or dragged, orange otherwise.
pub fn slider_thumb_color(disabled: bool, hovered: bool, dragging: bool) -> (c: Rgba)
    ensures
        c == (if disabled {
            opaque(500_000, 500_000, 500_000)
        } else if hovered || dragging {
            opaque(1_000_000, 650_000, 300_000)
        } else {
            opaque(950_000, 550_000, 200_000)
        }),
{
    if disabled {
        opaque_exec(500_000, 500_000, 500_000)
    } else if hovered || dragging {
        opaque_exec(1_000_000, 650_000, 300_000)
    } else {
        opaque_exec(950_000, 550_000, 200_000)
    }
}

} // verus!

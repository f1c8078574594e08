use vstd::prelude::*;

verus! {

/// The screens of the game.
#[derive(Clone, Copy, PartialEq, Eq, Structural, Debug, Hash)]
pub enum GameState {
    MainMenu,
    InGame,
    Paused,
    Credits,
    GameOver,
    Tutorial,
    Settings,
}

impl Default for GameState {
    fn default() -> (s: GameState)
        ensures
            s == GameState::MainMenu,
    {
        GameState::MainMenu
    }
}

/// Remembers which screen was left when the game was paused.
pub struct PauseState {
    pub previous_state: Option<GameState>,
}

impl Default for PauseState {
    fn default() -> (s: PauseState)
        ensures
            s.previous_state is None,
    {
        PauseState { previous_state: None }
    }
}

/// The screen a resume goes back to: the remembered one, or the game itself.
pub open spec fn resume_target_of(previous: Option<GameState>) -> GameState {
    match previous {
        Some(s) => s,
        None => GameState::InGame,
    }
}

/// The pause state after Escape is pressed on screen `current`: any screen
/// but the pause screen is remembered; on the pause screen nothing changes.
pub open spec fn paused_from(p: PauseState, current: GameState) -> PauseState {
    if current == GameState::Paused {
        p
    } else {
        PauseState { previous_state: Some(current) }
    }
}

/// The screen Escape leads to from `current`: the pause screen from any other
/// screen, and back to the remembered screen from the pause screen.
pub open spec fn escape_target(p: PauseState, current: GameState) -> GameState {
    if current == GameState::Paused {
        resume_target_of(p.previous_state)
    } else {
        GameState::Paused
    }
}

/// The pause state after entering the pause screen: a missing screen falls
/// back to the game.
pub open spec fn with_fallback(p: PauseState) -> PauseState {
    match p.previous_state {
        Some(s) => PauseState { previous_state: Some(s) },
        None => PauseState { previous_state: Some(GameState::InGame) },
    }
}

impl PauseState {
    /// Escape pressed on screen `current`: from any other screen, remember it
    /// and go to the pause screen; on the pause screen, resume the remembered one.
    pub fn pause_from(&mut self, current: GameState) -> (next: GameState)
        ensures
            *final(self) == paused_from(*old(self), current),
            next == escape_target(*old(self), current),
    {
        if current == GameState::Paused {
            self.resume_target()
        } else {
            self.previous_state = Some(current);
            GameState::Paused
        }
    }

    /// Escape pressed on the pause screen: the screen to go back to.
    pub fn resume_target(&self) -> (next: GameState)
        ensures
            next == resume_target_of(self.previous_state),
    {
        match self.previous_state {
            Some(s) => s,
            None => GameState::InGame,
        }
    }

    /// Entering the pause screen without a remembered screen falls back to the game.
    pub fn ensure_previous(&mut self)
        ensures
            *final(self) == with_fallback(*old(self)),
    {
        if self.previous_state.is_none() {
            self.previous_state = Some(GameState::InGame);
        }
    }
}

/// Escape pauses and resumes: pressed on a screen it leads to the pause
/// screen, and pressed again there it leads back to that same screen; entering
/// the pause screen (with its fallback) does not change where a resume leads.
pub proof fn lemma_pause_then_resume(before: PauseState, current: GameState)
    requires
        current != GameState::Paused,
    ensures
        escape_target(before, current) == GameState::Paused,
        escape_target(paused_from(before, current), GameState::Paused) == current,
        escape_target(with_fallback(paused_from(before, current)), GameState::Paused) == current,
        paused_from(paused_from(before, current), GameState::Paused) == paused_from(before, current),
        resume_target_of(with_fallback(before).previous_state) == resume_target_of(
            before.previous_state,
        ),
{
}

} // verus!

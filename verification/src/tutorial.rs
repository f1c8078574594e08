use vstd::prelude::*;

use crate::uranek::UranekSprite;

verus! {

/// Number of the last step of the tutorial's script.
pub const LAST_TUTORIAL_STEP: usize = 6;

/// What Uranek says at each step of the tutorial.
pub const TUTORIAL_LINES: [&'static str; 7] = [
    "Cześć! Jestem URANEK.\n\nPracuję jako operator reaktora już od 12 godzin bez przerwy.\nTy będziesz mi pomagać, zanim przerobimy się na żarówkę świetlną.",
    "Najpierw REAKTOR.\n\nTutaj grzeje się paliwo. Zbyt zimny reaktor = zero kasy.\nZa gorący = grill all-inclusive.",
    "Ten pierwszy okrągły wskaźnik to temperatura REAKTORA.\n\nTrzymaj ją raczej w zielono-żółtej strefie.",
    "Ten drugi wskaźnik to TURBINA.\n\nOna robi z gorącej wody pieniądze. Za zimna - nie kręci. Za gorąca - kręci się ostatni raz.",
    "Suwak REAKTYWNOŚCI steruje, jak mocno reaktor się rozgrzewa.\n\nW grze będziesz nim delikatnie kręcić.",
    "Suwak TURBINY reguluje przepływ.\n\nWięcej przepływu = więcej mocy, ale też cieplejsza turbina.",
    "I to tyle z teorii! Teraz przejdziemy do prawdziwej zmiany.\n\nNaciśnij [SPACJA], żeby odpalić prawdziwy reaktor.",
];

/// What Uranek says once the script is over.
pub const TUTORIAL_CLOSING_LINE: &'static str = "Gotowy na prawdziwy reaktor?";

/// Uranek's first words when the tutorial opens.
pub const TUTORIAL_OPENING_LINE: &'static str = "Cześć! Jestem URANEK, twój ulubiony operator reaktora.\n\nNaciśnij [SPACJA], żeby zacząć.";

/// The step of the tutorial the player has reached.
pub struct TutorialState {
    pub step_index: usize,
}

impl Default for TutorialState {
    fn default() -> (s: TutorialState)
        ensures
            s.step_index == 0,
    {
        TutorialState { step_index: 0 }
    }
}

/// The parts of the screen the tutorial points at.
#[derive(Clone, Copy, PartialEq, Eq, Structural, Debug)]
pub enum HighlightKind {
    Gauge,
    Reactivity,
    Turbine,
}

/// The text of step `step`.
pub open spec fn tutorial_line(step: int) -> &'static str {
    if 0 <= step <= LAST_TUTORIAL_STEP {
        TUTORIAL_LINES@[step]
    } else {
        TUTORIAL_CLOSING_LINE
    }
}

/// Whether the highlight of `kind` glows at step `step`: the gauges while
/// Uranek explains them (steps 2 and 3), the reactivity slider at step 4 and
/// the turbine slider at step 5.
pub open spec fn highlight_on(step: int, kind: HighlightKind) -> bool {
    match kind {
        HighlightKind::Gauge => step == 2 || step == 3,
        HighlightKind::Reactivity => step == 4,
        HighlightKind::Turbine => step == 5,
    }
}

/// Uranek's picture in the tutorial: waving at step 0, switching between
/// talking and idle at each tick of the talking timer during steps 1 to 6,
/// idle afterwards.
pub open spec fn tutorial_sprite_after(step: int, current: UranekSprite, tick: bool) -> UranekSprite {
    if step == 0 {
        UranekSprite::Wave
    } else if 1 <= step <= LAST_TUTORIAL_STEP {
        if tick {
            if current == UranekSprite::Talk { UranekSprite::Idle } else { UranekSprite::Talk }
        } else {
            current
        }
    } else {
        UranekSprite::Idle
    }
}

impl TutorialState {
    /// Space pressed: the next step. Returns whether the tutorial is over
    /// (past its last step) and the game begins.
    pub fn advance(&mut self) -> (finished: bool)
        requires
            old(self).step_index < usize::MAX,
        ensures
            final(self).step_index == old(self).step_index + 1,
            finished == (final(self).step_index > LAST_TUTORIAL_STEP),
    {
        self.step_index = self.step_index + 1;
        self.step_index > LAST_TUTORIAL_STEP
    }

    /// The text Uranek shows at the current step.
    pub fn text(&self) -> (line: &'static str)
        ensures
            line == tutorial_line(self.step_index as int),
    {
        if self.step_index <= LAST_TUTORIAL_STEP {
            TUTORIAL_LINES[self.step_index]
        } else {
            TUTORIAL_CLOSING_LINE
        }
    }

    /// Whether the highlight of `kind` glows at the current step.
    pub fn highlight_active(&self, kind: HighlightKind) -> (on: bool)
        ensures
            on == highlight_on(self.step_index as int, kind),
    {
        match kind {
            HighlightKind::Gauge => self.step_index == 2 || self.step_index == 3,
            HighlightKind::Reactivity => self.step_index == 4,
            HighlightKind::Turbine => self.step_index == 5,
        }
    }

    /// Uranek's picture at the current step, from the current one and
    /// whether the talking timer ticked; also whether he is talking.
    pub fn uranek_sprite(&self, current: UranekSprite, tick: bool) -> (r: (UranekSprite, bool))
        ensures
            r.0 == tutorial_sprite_after(self.step_index as int, current, tick),
            r.1 == (1 <= self.step_index <= LAST_TUTORIAL_STEP),
    {
        if self.step_index == 0 {
            (UranekSprite::Wave, false)
        } else if self.step_index <= LAST_TUTORIAL_STEP {
            let next = if tick {
                if current == UranekSprite::Talk { UranekSprite::Idle } else { UranekSprite::Talk }
            } else {
                current
            };
            (next, true)
        } else {
            (UranekSprite::Idle, false)
        }
    }
}

/// Each part of the screen glows at some step and no two parts glow at once.
pub proof fn lemma_one_highlight_at_a_time(step: int, a: HighlightKind, b: HighlightKind)
    ensures
        highlight_on(step, a) && highlight_on(step, b) ==> a == b,
        highlight_on(2, HighlightKind::Gauge),
        highlight_on(4, HighlightKind::Reactivity),
        highlight_on(5, HighlightKind::Turbine),
{
}

/// Seven presses of space from the start finish the tutorial, and no fewer do.
pub proof fn lemma_tutorial_length(presses: int)
    requires
        presses >= 0,
    ensures
        (0 + presses > LAST_TUTORIAL_STEP) == (presses >= 7),
{
}

} // verus!

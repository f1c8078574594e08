use reactor_sim::tutorial::{HighlightKind, TutorialState, TUTORIAL_CLOSING_LINE, TUTORIAL_LINES};
use reactor_sim::uranek::UranekSprite;

#[test]
fn seven_presses_finish_the_tutorial() {
    let mut tutorial = TutorialState::default();
    for _ in 0..6 {
        assert!(!tutorial.advance());
    }
    assert_eq!(tutorial.step_index, 6);
    assert!(tutorial.advance());
    assert_eq!(tutorial.step_index, 7);
}

#[test]
fn tutorial_texts() {
    let mut tutorial = TutorialState::default();
    assert_eq!(tutorial.text(), TUTORIAL_LINES[0]);
    assert!(tutorial.text().starts_with("Cześć! Jestem URANEK."));
    tutorial.step_index = 4;
    assert!(tutorial.text().starts_with("Suwak REAKTYWNOŚCI"));
    tutorial.step_index = 7;
    assert_eq!(tutorial.text(), TUTORIAL_CLOSING_LINE);
    tutorial.step_index = 100;
    assert_eq!(tutorial.text(), "Gotowy na prawdziwy reaktor?");
}

#[test]
fn highlights_follow_the_script() {
    let mut tutorial = TutorialState::default();
    let mut lit = Vec::new();
    for step in 0..8 {
        tutorial.step_index = step;
        lit.push((
            tutorial.highlight_active(HighlightKind::Gauge),
            tutorial.highlight_active(HighlightKind::Reactivity),
            tutorial.highlight_active(HighlightKind::Turbine),
        ));
    }
    assert_eq!(lit, vec![
        (false, false, false),
        (false, false, false),
        (true, false, false),
        (true, false, false),
        (false, true, false),
        (false, false, true),
        (false, false, false),
        (false, false, false),
    ]);
}

#[test]
fn uranek_waves_then_talks_then_idles() {
    let mut tutorial = TutorialState::default();
    assert_eq!(tutorial.uranek_sprite(UranekSprite::Idle, true), (UranekSprite::Wave, false));
    tutorial.step_index = 3;
    assert_eq!(tutorial.uranek_sprite(UranekSprite::Talk, true), (UranekSprite::Idle, true));
    assert_eq!(tutorial.uranek_sprite(UranekSprite::Idle, true), (UranekSprite::Talk, true));
    assert_eq!(tutorial.uranek_sprite(UranekSprite::Wave, true), (UranekSprite::Talk, true));
    assert_eq!(tutorial.uranek_sprite(UranekSprite::Wave, false), (UranekSprite::Wave, true));
    tutorial.step_index = 7;
    assert_eq!(tutorial.uranek_sprite(UranekSprite::Talk, true), (UranekSprite::Idle, false));
}

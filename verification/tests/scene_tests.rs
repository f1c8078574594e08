use reactor_sim::scene::{same_text, scene_object_tag, SceneTag};
use reactor_sim::uranek::UranekState;

#[test]
fn scene_objects_are_tagged_by_name() {
    assert_eq!(scene_object_tag("Control 1"), Some(SceneTag::ControlRod));
    assert_eq!(scene_object_tag("Control 2"), Some(SceneTag::ControlRod));
    assert_eq!(scene_object_tag("Control 3"), Some(SceneTag::ControlRod));
    assert_eq!(scene_object_tag("Turbine"), Some(SceneTag::Turbine));
    assert_eq!(scene_object_tag("Control 4"), None);
    assert_eq!(scene_object_tag("turbine"), None);
    assert_eq!(scene_object_tag("Turbine "), None);
    assert_eq!(scene_object_tag(""), None);
}

#[test]
fn text_comparison() {
    assert!(same_text("żółw", "żółw"));
    assert!(!same_text("żółw", "zółw"));
    assert!(!same_text("ab", "abc"));
    assert!(same_text("", ""));
}

#[test]
fn new_game_starts_the_greeting() {
    let state = UranekState::new_game(2_500_000);
    assert_eq!(state.last_default_text_time, 2_500_000);
    assert_eq!(state.last_comment_time, -999_000_000);
    assert_eq!(state.talk_timeout, 0);
    assert_eq!(state.blink_frame, 0);
}

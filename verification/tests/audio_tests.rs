use reactor_sim::audio::{random_talking_clip, AudioSettings, HissingChange, HissingState, SoundAction};
use reactor_sim::simulation::ReactorState;

#[test]
fn effect_volumes_follow_the_setting() {
    let full = AudioSettings::default();
    assert_eq!(full.volume, 1_000_000);
    assert_eq!(full.explosion_volume(), 500_000);
    assert_eq!(full.hissing_volume(), 650_000);
    let quiet = AudioSettings { volume: 300_000 };
    assert_eq!(quiet.explosion_volume(), 0);
    assert_eq!(quiet.hissing_volume(), 0);
    let loud = AudioSettings { volume: 3_000_000 };
    assert_eq!(loud.explosion_volume(), 1_000_000);
}

#[test]
fn volume_text_in_percent() {
    assert_eq!(AudioSettings::default().volume_text(), "100%");
    assert_eq!(AudioSettings { volume: 555_000 }.volume_text(), "55%");
    assert_eq!(AudioSettings { volume: 0 }.volume_text(), "0%");
}

#[test]
fn hissing_from_seventy_percent_pressure() {
    let mut hissing = HissingState::default();
    let high = ReactorState { temperature: 20_000_000, pressure: 112_000_000 };
    let low = ReactorState { temperature: 20_000_000, pressure: 111_999_999 };
    assert_eq!(hissing.update(&low), HissingChange::Unchanged);
    assert!(!hissing.active);
    assert_eq!(hissing.update(&high), HissingChange::Activated);
    assert!(hissing.active);
    assert_eq!(hissing.update(&high), HissingChange::Unchanged);
    assert_eq!(hissing.sound_action(false), SoundAction::Spawn);
    assert_eq!(hissing.sound_action(true), SoundAction::Keep);
    assert_eq!(hissing.update(&low), HissingChange::Deactivated);
    assert_eq!(hissing.sound_action(true), SoundAction::Despawn);
}

#[test]
fn talking_clips_are_numbered_from_one_to_ten() {
    let mut seen = [false; 11];
    for _ in 0..2000 {
        let n = random_talking_clip();
        assert!((1..=10).contains(&n));
        seen[n as usize] = true;
    }
    assert!(seen[1..].iter().all(|s| *s));
}

use reactor_sim::audio::talking_clip_for_roll;

#[test]
fn clip_from_roll() {
    assert_eq!(talking_clip_for_roll(0), 1);
    assert_eq!(talking_clip_for_roll(9), 10);
    assert_eq!(talking_clip_for_roll(12), 3);
}

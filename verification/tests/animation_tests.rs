use reactor_sim::refuel_animation::{control_rod_lift, RefuelAnimationState, RefuelPhase};
use reactor_sim::simulation::ControlSettings;

#[test]
fn refuel_animation_full_cycle() {
    let mut animation = RefuelAnimationState::default();
    assert_eq!(animation.phase, RefuelPhase::Idle);
    animation.update(5_000_000);
    assert_eq!(animation.phase, RefuelPhase::Idle);
    assert_eq!(animation.extra_offset, 0);

    animation.trigger();
    assert_eq!(animation.phase, RefuelPhase::Raising);
    assert_eq!(animation.duration_us, 800_000);
    animation.update(400_000);
    assert_eq!(animation.phase, RefuelPhase::Raising);
    assert_eq!(animation.extra_offset, 5_000_000);
    animation.update(500_000);
    assert_eq!(animation.phase, RefuelPhase::Hold);
    assert_eq!(animation.extra_offset, 10_000_000);
    assert_eq!(animation.elapsed_us, 0);
    assert_eq!(animation.duration_us, 1_000_000);
    animation.update(999_999);
    assert_eq!(animation.phase, RefuelPhase::Hold);
    animation.update(1);
    assert_eq!(animation.phase, RefuelPhase::Lowering);
    assert_eq!(animation.extra_offset, 10_000_000);
    assert_eq!(animation.duration_us, 800_000);
    animation.update(200_000);
    assert_eq!(animation.extra_offset, 7_500_000);
    animation.update(600_000);
    assert_eq!(animation.phase, RefuelPhase::Idle);
    assert_eq!(animation.extra_offset, 0);
}

#[test]
fn long_frame_moves_one_stage_only() {
    let mut animation = RefuelAnimationState::default();
    animation.trigger();
    animation.update(10_000_000);
    assert_eq!(animation.phase, RefuelPhase::Hold);
    animation.update(10_000_000);
    assert_eq!(animation.phase, RefuelPhase::Lowering);
    animation.update(10_000_000);
    assert_eq!(animation.phase, RefuelPhase::Idle);
}

#[test]
fn rods_follow_reactivity_and_refuel() {
    let controls = ControlSettings { reactivity_applied: 50_000_000, ..ControlSettings::default() };
    let mut animation = RefuelAnimationState::default();
    assert_eq!(control_rod_lift(&controls, &animation), 1_500_000);
    animation.trigger();
    animation.update(800_000);
    assert_eq!(control_rod_lift(&controls, &animation), 11_500_000);
    assert_eq!(control_rod_lift(&ControlSettings::default(), &RefuelAnimationState::default()), 0);
}

#[test]
fn refuel_animation_rests_after_two_point_six_seconds_plus_frames() {
    let frame = 16_667;
    let mut animation = RefuelAnimationState::default();
    animation.trigger();
    let mut elapsed = 0;
    let mut rank = 0;
    while elapsed < 2_600_000 + 3 * frame {
        animation.update(frame);
        elapsed += frame;
        let now = match animation.phase {
            RefuelPhase::Raising => 0,
            RefuelPhase::Hold => 1,
            RefuelPhase::Lowering => 2,
            RefuelPhase::Idle => 3,
        };
        assert!(now >= rank);
        rank = now;
    }
    assert_eq!(animation.phase, RefuelPhase::Idle);
    assert_eq!(animation.extra_offset, 0);
    animation.update(frame);
    assert_eq!(animation.phase, RefuelPhase::Idle);
}

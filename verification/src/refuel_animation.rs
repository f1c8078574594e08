use vstd::prelude::*;

use crate::simulation::{total_time, ControlSettings};

verus! {

/// Height (millionths of a scene unit) to which the control rods are pulled
/// out during a refuel.
pub const REFUEL_EXTRA_LIFT: i64 = 10_000_000;
/// Duration of pulling the rods out (0.8 s).
pub const REFUEL_RAISE_DURATION: i64 = 800_000;
/// Duration the rods stay out (1 s).
pub const REFUEL_HOLD_DURATION: i64 = 1_000_000;
/// Duration of lowering the rods back (0.8 s).
pub const REFUEL_LOWER_DURATION: i64 = 800_000;
/// Duration of the idle timer (1 s).
pub const IDLE_TIMER_DURATION: i64 = 1_000_000;

/// The stages of the refuel animation.
#[derive(Clone, Copy, PartialEq, Eq, Structural, Debug)]
pub enum RefuelPhase {
    Idle,
    Raising,
    Hold,
    Lowering,
}

/// The refuel animation: its stage, a one-shot timer of the stage (elapsed
/// and total microseconds) and the extra lift of the control rods.
pub struct RefuelAnimationState {
    pub phase: RefuelPhase,
    pub elapsed_us: i64,
    pub duration_us: i64,
    pub extra_offset: i64,
}

/// The stage that follows `phase` when its timer runs out.
pub open spec fn next_phase(phase: RefuelPhase) -> RefuelPhase {
    match phase {
        RefuelPhase::Idle => RefuelPhase::Idle,
        RefuelPhase::Raising => RefuelPhase::Hold,
        RefuelPhase::Hold => RefuelPhase::Lowering,
        RefuelPhase::Lowering => RefuelPhase::Idle,
    }
}

/// The duration of the timer that a stage starts with.
pub open spec fn phase_duration(phase: RefuelPhase) -> int {
    match phase {
        RefuelPhase::Idle => IDLE_TIMER_DURATION as int,
        RefuelPhase::Raising => REFUEL_RAISE_DURATION as int,
        RefuelPhase::Hold => REFUEL_HOLD_DURATION as int,
        RefuelPhase::Lowering => REFUEL_LOWER_DURATION as int,
    }
}

/// The lift of the rods `elapsed` microseconds into a stage of `duration`.
pub open spec fn phase_offset(phase: RefuelPhase, elapsed: int, duration: int) -> int {
    match phase {
        RefuelPhase::Idle => 0,
        RefuelPhase::Raising => (REFUEL_EXTRA_LIFT * elapsed) / duration,
        RefuelPhase::Hold => REFUEL_EXTRA_LIFT as int,
        RefuelPhase::Lowering => REFUEL_EXTRA_LIFT - (REFUEL_EXTRA_LIFT * elapsed) / duration,
    }
}

/// One update of the animation by `delta` microseconds. While idle the rods
/// rest at zero. In a moving stage the timer runs (up to its duration), the
/// lift follows the stage's progress, and a finished timer moves on to the
/// next stage with a fresh timer; at the end of lowering the lift is zero.
pub open spec fn animation_step(s: RefuelAnimationState, delta: int) -> RefuelAnimationState {
    if s.phase == RefuelPhase::Idle {
        RefuelAnimationState { extra_offset: 0, ..s }
    } else {
        let ticked = if s.elapsed_us + delta >= s.duration_us {
            s.duration_us as int
        } else {
            s.elapsed_us + delta
        };
        let offset = phase_offset(s.phase, ticked, s.duration_us as int);
        if ticked >= s.duration_us {
            let next = next_phase(s.phase);
            RefuelAnimationState {
                phase: next,
                elapsed_us: 0,
                duration_us: phase_duration(next) as i64,
                extra_offset: (if next == RefuelPhase::Idle { 0 } else { offset }) as i64,
            }
        } else {
            RefuelAnimationState {
                phase: s.phase,
                elapsed_us: ticked as i64,
                duration_us: s.duration_us,
                extra_offset: offset as i64,
            }
        }
    }
}

impl Default for RefuelAnimationState {
    fn default() -> (s: RefuelAnimationState)
        ensures
            s.phase == RefuelPhase::Idle,
            s.elapsed_us == 0,
            s.duration_us == IDLE_TIMER_DURATION,
            s.extra_offset == 0,
    {
        RefuelAnimationState {
            phase: RefuelPhase::Idle,
            elapsed_us: 0,
            duration_us: IDLE_TIMER_DURATION,
            extra_offset: 0,
        }
    }
}

impl RefuelAnimationState {
    /// The timer never runs past its duration, which is positive, and the
    /// lift stays between zero and the full lift.
    pub open spec fn wf(&self) -> bool {
        &&& 0 < self.duration_us <= 1_000_000
        &&& 0 <= self.elapsed_us <= self.duration_us
        &&& 0 <= self.extra_offset <= REFUEL_EXTRA_LIFT
    }

    /// Starts the animation: the rods begin to rise from their rest position.
    pub fn trigger(&mut self)
        ensures
            final(self).phase == RefuelPhase::Raising,
            final(self).elapsed_us == 0,
            final(self).duration_us == REFUEL_RAISE_DURATION,
            final(self).extra_offset == 0,
            final(self).wf(),
    {
        self.phase = RefuelPhase::Raising;
        self.elapsed_us = 0;
        self.duration_us = REFUEL_RAISE_DURATION;
        self.extra_offset = 0;
    }

    /// Advances the animation by `delta_us` microseconds (see `animation_step`).
    pub fn update(&mut self, delta_us: i64)
        requires
            old(self).wf(),
            delta_us >= 0,
        ensures
            *final(self) == animation_step(*old(self), delta_us as int),
            final(self).wf(),
            final(self).phase == RefuelPhase::Idle ==> final(self).extra_offset == 0,
            final(self).phase == RefuelPhase::Hold ==> final(self).extra_offset == REFUEL_EXTRA_LIFT,
            final(self).phase == RefuelPhase::Raising ==> final(self).extra_offset == (REFUEL_EXTRA_LIFT
                * final(self).elapsed_us) / (final(self).duration_us as int),
            final(self).phase == RefuelPhase::Lowering ==> final(self).extra_offset == REFUEL_EXTRA_LIFT
                - (REFUEL_EXTRA_LIFT * final(self).elapsed_us) / (final(self).duration_us as int),
            old(self).phase == RefuelPhase::Idle ==> final(self).phase == RefuelPhase::Idle,
            final(self).phase == old(self).phase || final(self).phase == next_phase(old(self).phase),
    {
        if self.phase == RefuelPhase::Idle {
            self.extra_offset = 0;
            return;
        }
        let ticked: i64 = if delta_us >= self.duration_us - self.elapsed_us {
            self.duration_us
        } else {
            self.elapsed_us + delta_us
        };
        self.elapsed_us = ticked;
        let finished = ticked >= self.duration_us;
        let d = self.duration_us;
        proof {
            lemma_progress_bounds(ticked as int, d as int);
        }
        match self.phase {
            RefuelPhase::Raising => {
                self.extra_offset = REFUEL_EXTRA_LIFT * ticked / d;
                if finished {
                    proof {
                        vstd::arithmetic::div_mod::lemma_div_multiples_vanish(REFUEL_EXTRA_LIFT as int, d as int);
                        assert(d * REFUEL_EXTRA_LIFT == REFUEL_EXTRA_LIFT * d) by (nonlinear_arith);
                    }
                    self.phase = RefuelPhase::Hold;
                    self.elapsed_us = 0;
                    self.duration_us = REFUEL_HOLD_DURATION;
                }
            },
            RefuelPhase::Hold => {
                self.extra_offset = REFUEL_EXTRA_LIFT;
                if finished {
                    self.phase = RefuelPhase::Lowering;
                    self.elapsed_us = 0;
                    self.duration_us = REFUEL_LOWER_DURATION;
                }
            },
            _ => {
                self.extra_offset = REFUEL_EXTRA_LIFT - REFUEL_EXTRA_LIFT * ticked / d;
                if finished {
                    self.phase = RefuelPhase::Idle;
                    self.elapsed_us = 0;
                    self.duration_us = IDLE_TIMER_DURATION;
                    self.extra_offset = 0;
                }
            },
        }
    }
}

/// How far (millionths of a scene unit) the control rods travel between 0 %
/// and 100 % reactivity.
pub const ROD_TRAVEL: i64 = 3_000_000;

/// How far the control rods are lifted above their rest position: in
/// proportion to the reactivity the plant has reached, plus the refuel lift.
pub fn control_rod_lift(controls: &ControlSettings, animation: &RefuelAnimationState) -> (lift: i64)
    requires
        controls.wf(),
        animation.wf(),
    ensures
        lift == (ROD_TRAVEL * controls.reactivity_applied) / 100_000_000 + animation.extra_offset,
        0 <= lift <= ROD_TRAVEL + REFUEL_EXTRA_LIFT,
{
    proof {
        assert(0 <= ROD_TRAVEL * controls.reactivity_applied <= ROD_TRAVEL * 100_000_000)
            by (nonlinear_arith)
            requires
                0 <= controls.reactivity_applied <= 100_000_000,
        ;
        vstd::arithmetic::div_mod::lemma_div_is_ordered(
            ROD_TRAVEL * controls.reactivity_applied,
            ROD_TRAVEL * 100_000_000,
            100_000_000,
        );
        vstd::arithmetic::div_mod::lemma_div_pos_is_pos(ROD_TRAVEL * controls.reactivity_applied, 100_000_000);
    }
    ROD_TRAVEL * controls.reactivity_applied / 100_000_000 + animation.extra_offset
}

/// The lift's share of a stage's progress stays between zero and the full lift.
proof fn lemma_progress_bounds(elapsed: int, duration: int)
    requires
        0 < duration <= 1_000_000,
        0 <= elapsed <= duration,
    ensures
        0 <= (REFUEL_EXTRA_LIFT * elapsed) / duration <= REFUEL_EXTRA_LIFT,
        REFUEL_EXTRA_LIFT * elapsed <= REFUEL_EXTRA_LIFT * 1_000_000,
{
    assert(0 <= REFUEL_EXTRA_LIFT * elapsed <= REFUEL_EXTRA_LIFT * duration) by (nonlinear_arith)
        requires
            0 <= elapsed <= duration,
    ;
    assert(REFUEL_EXTRA_LIFT * elapsed <= REFUEL_EXTRA_LIFT * 1_000_000) by (nonlinear_arith)
        requires
            elapsed <= 1_000_000,
    ;
    vstd::arithmetic::div_mod::lemma_div_is_ordered(REFUEL_EXTRA_LIFT * elapsed, REFUEL_EXTRA_LIFT * duration, duration);
    vstd::arithmetic::div_mod::lemma_div_multiples_vanish(REFUEL_EXTRA_LIFT as int, duration);
    vstd::arithmetic::div_mod::lemma_div_pos_is_pos(REFUEL_EXTRA_LIFT * elapsed, duration);
    assert(duration * REFUEL_EXTRA_LIFT == REFUEL_EXTRA_LIFT * duration) by (nonlinear_arith);
}

/// The animation moves through its stages in order: an update leaves the
/// stage as it is or moves to the next one, keeps the lift between zero and
/// the full lift, and leaves idle rods at rest.
pub proof fn lemma_update_follows_stage_order(before: RefuelAnimationState, delta: int)
    requires
        before.wf(),
        delta >= 0,
    ensures
        animation_step(before, delta).phase == before.phase
            || animation_step(before, delta).phase == next_phase(before.phase),
        animation_step(before, delta).wf(),
        before.phase == RefuelPhase::Idle ==> animation_step(before, delta).phase
            == RefuelPhase::Idle && animation_step(before, delta).extra_offset == 0,
{
    if before.phase != RefuelPhase::Idle {
        let ticked = if before.elapsed_us + delta >= before.duration_us {
            before.duration_us as int
        } else {
            before.elapsed_us + delta
        };
        lemma_progress_bounds(ticked, before.duration_us as int);
    }
}

/// The animation right after `trigger`.
pub open spec fn triggered() -> RefuelAnimationState {
    RefuelAnimationState {
        phase: RefuelPhase::Raising,
        elapsed_us: 0,
        duration_us: REFUEL_RAISE_DURATION,
        extra_offset: 0,
    }
}

/// The animation after updates by each of `deltas` in turn.
pub open spec fn animate(s: RefuelAnimationState, deltas: Seq<int>) -> RefuelAnimationState
    decreases deltas.len(),
{
    if deltas.len() == 0 {
        s
    } else {
        animation_step(animate(s, deltas.drop_last()), deltas.last())
    }
}

/// The order of the stages after a trigger: raising, hold, lowering, rest.
pub open spec fn stage_rank(phase: RefuelPhase) -> int {
    match phase {
        RefuelPhase::Raising => 0,
        RefuelPhase::Hold => 1,
        RefuelPhase::Lowering => 2,
        RefuelPhase::Idle => 3,
    }
}

/// A state the animation can be in while it runs: well formed, a moving
/// stage's timer not yet run out, and the rods at rest while idle.
pub open spec fn running(s: RefuelAnimationState) -> bool {
    &&& s.wf()
    &&& s.phase != RefuelPhase::Idle ==> s.elapsed_us < s.duration_us
    &&& s.phase == RefuelPhase::Idle ==> s.extra_offset == 0
}

/// An upper bound on the time the animation still needs to come to rest,
/// with frames of at most `max_delta` microseconds: the time left in each
/// remaining stage plus one frame per stage.
pub open spec fn rest_bound(s: RefuelAnimationState, max_delta: int) -> int {
    let left = s.duration_us - s.elapsed_us;
    match s.phase {
        RefuelPhase::Raising => left + REFUEL_HOLD_DURATION + REFUEL_LOWER_DURATION + 3 * max_delta,
        RefuelPhase::Hold => left + REFUEL_LOWER_DURATION + 2 * max_delta,
        RefuelPhase::Lowering => left + max_delta,
        RefuelPhase::Idle => 0,
    }
}

proof fn lemma_step_toward_rest(s: RefuelAnimationState, delta: int, max_delta: int)
    requires
        running(s),
        0 <= delta <= max_delta,
    ensures
        running(animation_step(s, delta)),
        stage_rank(animation_step(s, delta).phase) >= stage_rank(s.phase),
        s.phase != RefuelPhase::Idle && animation_step(s, delta).phase != RefuelPhase::Idle
            ==> rest_bound(animation_step(s, delta), max_delta) <= rest_bound(s, max_delta) - delta,
{
    lemma_update_follows_stage_order(s, delta);
}

proof fn lemma_animate_toward_rest(s: RefuelAnimationState, deltas: Seq<int>, max_delta: int)
    requires
        running(s),
        forall|i: int| 0 <= i < deltas.len() ==> 0 <= #[trigger] deltas[i] <= max_delta,
    ensures
        running(animate(s, deltas)),
        stage_rank(animate(s, deltas).phase) >= stage_rank(s.phase),
        animate(s, deltas).phase != RefuelPhase::Idle ==> rest_bound(animate(s, deltas), max_delta)
            <= rest_bound(s, max_delta) - total_time(deltas),
        forall|k: int|
            0 <= k <= deltas.len() ==> stage_rank(#[trigger] animate(s, deltas.take(k)).phase)
                <= stage_rank(animate(s, deltas).phase),
    decreases deltas.len(),
{
    if deltas.len() > 0 {
        let rest = deltas.drop_last();
        assert forall|i: int| 0 <= i < rest.len() implies 0 <= #[trigger] rest[i] <= max_delta by {
            assert(rest[i] == deltas[i]);
        }
        lemma_animate_toward_rest(s, rest, max_delta);
        let prev = animate(s, rest);
        assert(deltas.last() == deltas[deltas.len() - 1]);
        lemma_step_toward_rest(prev, deltas.last(), max_delta);
        if prev.phase == RefuelPhase::Idle {
            lemma_update_follows_stage_order(prev, deltas.last());
        }
        assert forall|k: int|
            0 <= k <= deltas.len() implies stage_rank(#[trigger] animate(s, deltas.take(k)).phase)
                <= stage_rank(animate(s, deltas).phase) by {
            if k == deltas.len() {
                assert(deltas.take(k) =~= deltas);
            } else {
                assert(deltas.take(k) =~= rest.take(k));
            }
        }
    } else {
        assert forall|k: int|
            0 <= k <= deltas.len() implies stage_rank(#[trigger] animate(s, deltas.take(k)).phase)
                <= stage_rank(animate(s, deltas).phase) by {
            assert(deltas.take(k) =~= deltas);
        }
    }
}

/// After a refuel is triggered, a series of updates with frames of at most
/// `max_delta` microseconds moves through raising, hold, lowering and rest in
/// that order and never back, and once 2.6 s plus one frame per stage have
/// passed the animation is at rest with the rods at zero lift.
pub proof fn lemma_refuel_animation_comes_to_rest(deltas: Seq<int>, max_delta: int)
    requires
        max_delta >= 0,
        forall|i: int| 0 <= i < deltas.len() ==> 0 <= #[trigger] deltas[i] <= max_delta,
    ensures
        animate(triggered(), deltas).wf(),
        forall|k: int|
            0 <= k <= deltas.len() ==> stage_rank(#[trigger] animate(triggered(), deltas.take(k)).phase)
                <= stage_rank(animate(triggered(), deltas).phase),
        total_time(deltas) >= REFUEL_RAISE_DURATION + REFUEL_HOLD_DURATION + REFUEL_LOWER_DURATION
            + 3 * max_delta ==> {
            &&& animate(triggered(), deltas).phase == RefuelPhase::Idle
            &&& animate(triggered(), deltas).extra_offset == 0
        },
{
    lemma_animate_toward_rest(triggered(), deltas, max_delta);
}

/// While the animation holds, the rods are fully out: an update that ends in
/// the hold stage leaves the full lift, whatever time has passed; an update
/// that ends at rest leaves no lift.
pub proof fn lemma_rods_fully_out_while_holding(s: RefuelAnimationState, delta: int)
    requires
        s.wf(),
        delta >= 0,
    ensures
        animation_step(s, delta).phase == RefuelPhase::Hold ==> animation_step(s, delta).extra_offset
            == REFUEL_EXTRA_LIFT,
        animation_step(s, delta).phase == RefuelPhase::Idle ==> animation_step(s, delta).extra_offset
            == 0,
{
    let d = s.duration_us as int;
    vstd::arithmetic::div_mod::lemma_div_multiples_vanish(REFUEL_EXTRA_LIFT as int, d);
    assert(d * REFUEL_EXTRA_LIFT == REFUEL_EXTRA_LIFT * d) by (nonlinear_arith);
}

} // verus!

use vstd::prelude::*;

use crate::display::whole_units;
use crate::random::random_below;
use crate::simulation::{ReactorState, REACTOR_PRESSURE_LIMIT};
use crate::uranek::TALKING_CLIPS;
use crate::text::{
    digits, format_int, integer_text, padded_digits, push_digits, push_padded_digits, UNIT,
};

verus! {

/// Full volume.
pub const FULL_VOLUME: i64 = 1_000_000;
/// How much quieter than the music the explosion plays (half the scale).
pub const EXPLOSION_VOLUME_DROP: i64 = 500_000;
/// How much quieter than the music the hissing plays (35 % of the scale).
pub const HISSING_VOLUME_DROP: i64 = 350_000;

/// The volume setting, in millionths of the full volume.
pub struct AudioSettings {
    pub volume: i64,
}

impl Default for AudioSettings {
    fn default() -> (s: AudioSettings)
        ensures
            s.volume == FULL_VOLUME,
    {
        AudioSettings { volume: FULL_VOLUME }
    }
}

/// `v` cut to the range from silence to full volume.
pub open spec fn clamp_volume(v: int) -> int {
    if v < 0 { 0 } else if v > FULL_VOLUME { FULL_VOLUME as int } else { v }
}

fn clamp_volume_exec(v: i128) -> (c: i64)
    ensures
        c == clamp_volume(v as int),
{
    if v < 0 { 0 } else if v > FULL_VOLUME as i128 { FULL_VOLUME } else { v as i64 }
}

impl AudioSettings {
    /// The volume of the explosion at the end of a game.
    pub fn explosion_volume(&self) -> (v: i64)
        ensures
            v == clamp_volume(self.volume - EXPLOSION_VOLUME_DROP),
            500_000 <= self.volume <= 1_500_000 ==> v == self.volume - 500_000,
            self.volume < 500_000 ==> v == 0,
            self.volume > 1_500_000 ==> v == 1_000_000,
    {
        clamp_volume_exec(self.volume as i128 - EXPLOSION_VOLUME_DROP as i128)
    }

    /// The volume of the hissing of an over-pressured reactor.
    pub fn hissing_volume(&self) -> (v: i64)
        ensures
            v == clamp_volume(self.volume - HISSING_VOLUME_DROP),
            350_000 <= self.volume <= 1_350_000 ==> v == self.volume - 350_000,
            self.volume < 350_000 ==> v == 0,
            self.volume > 1_350_000 ==> v == 1_000_000,
    {
        clamp_volume_exec(self.volume as i128 - HISSING_VOLUME_DROP as i128)
    }

    /// The volume as whole percent points, as the settings screen shows it.
    pub fn volume_text(&self) -> (s: String)
        ensures
            s@ == integer_text(whole_units(100 * self.volume)) + "%"@,
    {
        let scaled: i128 = 100 * (self.volume as i128);
        let w: i128 = scaled / (UNIT as i128);
        assert(w == whole_units(100 * self.volume)) by {
            if scaled < 0 {
                assert((scaled as int) / (UNIT as int) <= 0);
            }
        }
        format_int(w as i64).concat("%")
    }
}

/// Whether the reactor hisses: from 70 % of the pressure limit on.
pub open spec fn should_hiss(pressure: int) -> bool {
    100 * pressure >= 70 * REACTOR_PRESSURE_LIMIT
}

/// Whether the hissing sound is on.
pub struct HissingState {
    pub active: bool,
}

impl Default for HissingState {
    fn default() -> (s: HissingState)
        ensures
            !s.active,
    {
        HissingState { active: false }
    }
}

/// A change of the hissing.
#[derive(Clone, Copy, PartialEq, Eq, Structural, Debug)]
pub enum HissingChange {
    Activated,
    Deactivated,
    Unchanged,
}

/// What to do with the hissing sound.
#[derive(Clone, Copy, PartialEq, Eq, Structural, Debug)]
pub enum SoundAction {
    Spawn,
    Despawn,
    Keep,
}

impl HissingState {
    /// Turns the hissing on or off from the reactor's pressure; reports the change.
    pub fn update(&mut self, reactor: &ReactorState) -> (change: HissingChange)
        ensures
            final(self).active == should_hiss(reactor.pressure as int),
            final(self).active == (100 * reactor.pressure >= 70 * REACTOR_PRESSURE_LIMIT),
            change == (if final(self).active && !old(self).active {
                HissingChange::Activated
            } else if !final(self).active && old(self).active {
                HissingChange::Deactivated
            } else {
                HissingChange::Unchanged
            }),
    {
        let hiss = 100 * (reactor.pressure as i128) >= 70 * (REACTOR_PRESSURE_LIMIT as i128);
        if hiss && !self.active {
            self.active = true;
            HissingChange::Activated
        } else if !hiss && self.active {
            self.active = false;
            HissingChange::Deactivated
        } else {
            HissingChange::Unchanged
        }
    }

    /// The hissing sound starts when it should play and none plays, and stops
    /// when it should not play.
    pub fn sound_action(&self, playing: bool) -> (a: SoundAction)
        ensures
            a == (if self.active && !playing {
                SoundAction::Spawn
            } else if !self.active {
                SoundAction::Despawn
            } else {
                SoundAction::Keep
            }),
    {
        if self.active && !playing {
            SoundAction::Spawn
        } else if !self.active {
            SoundAction::Despawn
        } else {
            SoundAction::Keep
        }
    }
}

/// The number of a talking clip as its file names it: at least three digits,
/// with leading zeros.
pub open spec fn clip_number_text(n: nat) -> Seq<char> {
    if n < 1000 { padded_digits(n, 3) } else { digits(n) }
}

/// The path of talking clip number `n`.
pub fn talking_clip_path(n: u64) -> (path: String)
    ensures
        path@ == "sound/talking/talking_"@ + clip_number_text(n as nat) + ".mp3"@,
{
    let mut s = String::from_str("sound/talking/talking_");
    if n < 1000 {
        push_padded_digits(&mut s, n, 3);
    } else {
        push_digits(&mut s, n);
    }
    s.concat(".mp3")
}

/// The talking clip that a die roll picks: the roll modulo 10, plus one.
pub fn talking_clip_for_roll(roll: u64) -> (n: u64)
    ensures
        n == roll % TALKING_CLIPS + 1,
        1 <= n <= TALKING_CLIPS,
{
    roll % TALKING_CLIPS + 1
}

/// A talking clip number drawn at random, from 1 to 10.
pub fn random_talking_clip() -> (n: u64)
    ensures
        1 <= n <= 10,
{
    talking_clip_for_roll(random_below(10) as u64)
}

/// Cutting to the volume range keeps every volume inside it unchanged,
/// silences what lies below and caps what lies above at full volume.
pub proof fn lemma_clamp_volume_keeps_audible_volumes(v: int)
    ensures
        0 <= v <= FULL_VOLUME ==> clamp_volume(v) == v,
        v < 0 ==> clamp_volume(v) == 0,
        v > FULL_VOLUME ==> clamp_volume(v) == FULL_VOLUME,
        0 <= clamp_volume(v) <= FULL_VOLUME,
{
}

/// The explosion plays half a scale below the volume setting and the hissing
/// 35 % below it: while that lies in the audible range each is exactly the
/// setting minus its drop; a louder setting never makes either quieter; and
/// the explosion is never louder than the hissing.
pub proof fn lemma_effect_volumes_follow_setting(volume: int, louder: int)
    requires
        volume <= louder,
    ensures
        500_000 <= volume <= 1_500_000 ==> clamp_volume(volume - EXPLOSION_VOLUME_DROP) == volume
            - 500_000,
        350_000 <= volume <= 1_350_000 ==> clamp_volume(volume - HISSING_VOLUME_DROP) == volume
            - 350_000,
        clamp_volume(volume - EXPLOSION_VOLUME_DROP) <= clamp_volume(louder - EXPLOSION_VOLUME_DROP),
        clamp_volume(volume - HISSING_VOLUME_DROP) <= clamp_volume(louder - HISSING_VOLUME_DROP),
        clamp_volume(volume - EXPLOSION_VOLUME_DROP) <= clamp_volume(volume - HISSING_VOLUME_DROP),
{
}

} // verus!

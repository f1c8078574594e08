use vstd::prelude::*;

use crate::random::random_below;
use crate::simulation::{
    turbine_limit, EnvironmentState, ReactorState, TurbineState, REACTOR_PRESSURE_LIMIT,
    REACTOR_TEMP_LIMIT,
};

verus! {

/// The pictures of Uranek, the operator's assistant.
#[derive(Clone, Copy, PartialEq, Eq, Structural, Debug)]
pub enum UranekSprite {
    Talk,
    Idle,
    Wave,
    Hot,
}

/// Uranek's clock readings (microseconds of game time) and blink frame.
pub struct UranekState {
    pub last_blink_time: i64,
    pub blink_frame: u8,
    pub last_comment_time: i64,
    pub last_default_text_time: i64,
    pub talk_timeout: i64,
}

/// Time with open eyes between blinks (8 s).
pub const BLINK_INTERVAL: i64 = 8_000_000;
/// Time the eyes stay closed (1 s).
pub const BLINK_DURATION: i64 = 1_000_000;
/// How long the greeting stays (3 s).
pub const GREETING_DURATION: i64 = 3_000_000;
/// Least time between two comments (6 s).
pub const COMMENT_COOLDOWN: i64 = 6_000_000;
/// How long a comment stays in the bubble (4 s).
pub const TALK_DURATION: i64 = 4_000_000;
/// Number of recorded talking clips.
pub const TALKING_CLIPS: u64 = 10;
/// The greeting shown when a game starts.
pub const GREETING: &'static str = "Uranek: Pilnujmy, żeby ten reaktor trzymał się w ryzach.";

impl Default for UranekState {
    fn default() -> (s: UranekState)
        ensures
            s.last_blink_time == 0,
            s.blink_frame == 0,
            s.last_comment_time == -999_000_000,
            s.last_default_text_time == 0,
            s.talk_timeout == 0,
    {
        UranekState {
            last_blink_time: 0,
            blink_frame: 0,
            last_comment_time: -999_000_000,
            last_default_text_time: 0,
            talk_timeout: 0,
        }
    }
}

/// Whether the reactor's temperature or pressure is at 80 % of its limit or more.
pub open spec fn reactor_in_danger(temperature: int, pressure: int) -> bool {
    100 * temperature >= 80 * REACTOR_TEMP_LIMIT || 100 * pressure >= 80 * REACTOR_PRESSURE_LIMIT
}

fn reactor_in_danger_exec(reactor: &ReactorState) -> (b: bool)
    ensures
        b == reactor_in_danger(reactor.temperature as int, reactor.pressure as int),
{
    100 * (reactor.temperature as i128) >= 80 * (REACTOR_TEMP_LIMIT as i128)
        || 100 * (reactor.pressure as i128) >= 80 * (REACTOR_PRESSURE_LIMIT as i128)
}

/// Uranek's idle blinking at time `now_us`. Nothing happens while the reactor
/// is in danger (the hot picture is shown then). With closed eyes, they open
/// after a second (the idle picture, and the interval starts anew); with open
/// eyes, they close after eight seconds (the talking picture). Returns the
/// picture to show, if it changes.
pub fn update_uranek_idle_animation(state: &mut UranekState, now_us: i64, reactor: &ReactorState) -> (shown: Option<UranekSprite>)
    ensures
        reactor_in_danger(reactor.temperature as int, reactor.pressure as int) ==> {
            &&& shown is None
            &&& *final(state) == *old(state)
        },
        !reactor_in_danger(reactor.temperature as int, reactor.pressure as int) ==> {
            let elapsed = now_us - old(state).last_blink_time;
            &&& final(state).last_comment_time == old(state).last_comment_time
            &&& final(state).last_default_text_time == old(state).last_default_text_time
            &&& final(state).talk_timeout == old(state).talk_timeout
            &&& if old(state).blink_frame == 1 {
                if elapsed >= BLINK_DURATION {
                    &&& shown == Some(UranekSprite::Idle)
                    &&& final(state).blink_frame == 0
                    &&& final(state).last_blink_time == now_us
                } else {
                    &&& shown is None
                    &&& final(state).blink_frame == 1
                    &&& final(state).last_blink_time == old(state).last_blink_time
                }
            } else if elapsed >= BLINK_INTERVAL {
                &&& shown == Some(UranekSprite::Talk)
                &&& final(state).blink_frame == 1
                &&& final(state).last_blink_time == now_us
            } else {
                &&& shown is None
                &&& final(state).blink_frame == old(state).blink_frame
                &&& final(state).last_blink_time == old(state).last_blink_time
            }
        },
{
    if reactor_in_danger_exec(reactor) {
        return None;
    }
    let elapsed: i128 = now_us as i128 - state.last_blink_time as i128;
    if state.blink_frame == 1 {
        if elapsed >= BLINK_DURATION as i128 {
            state.blink_frame = 0;
            state.last_blink_time = now_us;
            return Some(UranekSprite::Idle);
        }
        return None;
    }
    if elapsed >= BLINK_INTERVAL as i128 {
        state.last_blink_time = now_us;
        state.blink_frame = 1;
        return Some(UranekSprite::Talk);
    }
    None
}

/// What Uranek comments on.
#[derive(Clone, Copy, PartialEq, Eq, Structural, Debug)]
pub enum Comment {
    ReactorMeltdown,
    ReactorCritical,
    ReactorHot,
    ReactorWarm,
    PressureCritical,
    PressureHigh,
    TurbineCritical,
    TurbineHot,
    HighEarnings,
    Steady,
}

/// Lines for a reactor at 95 % of its temperature limit or more.
pub const REACTOR_MELTDOWN_LINES: [&'static str; 10] = [
    "REAKTOR ZARAZ SIĘ ROZTOPI! Obniż reaktywność NATYCHMIAST!",
    "To koniec! Reaktor się topi! Wszystkie pręty TERAZ!",
    "MELTDOWN! MELTDOWN! Obniż reaktywność do zera!",
    "KRYTYCZNE! Reaktor przekracza limity! ZATRZYMAJ GO!",
    "Widzę, że lubisz żyć niebezpiecznie... ZA BARDZO!",
    "To nie jest konkurs na najgorętszy reaktor! Schłódź to!",
    "Moja pensja nie obejmuje pracy w saunie! Obniż moc!",
    "Jeśli to się roztopi, będę musiał pisać raport... NIE CHCĘ!",
    "Reaktor robi się bardzo ciepły! To nie jest normalne!",
    "To nie jest grill! Nie smażymy tu kiełbasek!",
];

/// Lines for a reactor between 90 % and 95 % of its temperature limit.
pub const REACTOR_CRITICAL_LINES: [&'static str; 10] = [
    "Reaktor jest w strefie krytycznej! Obniż reaktywność!",
    "Temperatura wchodzi w czarną strefę! Włóż pręty!",
    "To już prawie koniec! Reaktor się topi!",
    "Nie żartuj ze mną, to naprawdę niebezpieczne!",
    "Chyba nie chcesz kończyć w gazecie jako 'operator roku'?",
    "Reaktor robi się gorętszy niż moja kawa rano! To źle!",
    "To nie jest konkurs piękności! Schłódź tego potwora!",
    "Jeśli to wybuchnie, będę musiał tłumaczyć się szefowi...",
    "Reaktor świeci się jak choinka, ale to nie święta!",
    "Moja emerytura jest za 30 lat! Nie psuj mi planów!",
];

/// Lines for a reactor between 80 % and 90 % of its temperature limit.
pub const REACTOR_HOT_LINES: [&'static str; 12] = [
    "Reaktor jest głęboko w czerwonym. Włóż pręty, teraz.",
    "Temperatura wchodzi w niebezpieczną strefę! Obniż reaktywność!",
    "Reaktor się przegrzewa! Zmniejsz moc!",
    "Za gorąco! Nie jestem upalem dla palących się problemów!",
    "Czerwona strefa to nie dekoracja! Schłódź to!",
    "Pamiętasz szkolenie BHP? Teraz przydałoby się!",
    "Reaktor robi się gorętszy niż moje żarty! To naprawdę źle!",
    "To nie jest sauna! Chyba że chcesz się zaparować...",
    "Czerwony kolor nie oznacza 'idź szybciej'! Zwolnij!",
    "Reaktor świeci się jak pomidor w słońcu! Schłódź go!",
    "Moja cierpliwość też się kończy! Obniż reaktywność!",
    "To nie jest wyścig! Kto pierwszy do meltdownu nie wygrywa!",
];

/// Lines for a reactor between 60 % and 80 % of its temperature limit.
pub const REACTOR_WARM_LINES: [&'static str; 5] = [
    "Reaktor wchodzi w żółtą strefę. Uważaj na temperaturę.",
    "Temperatura rośnie. Może warto trochę zmniejszyć reaktywność?",
    "Reaktor się rozgrzewa. Pilnuj wskaźników.",
    "Zaczyna robić się ciepło. Trzymaj rękę na pulsie.",
    "Żółta strefa - jeszcze bezpieczna, ale uważaj.",
];

/// Lines for a pressure at 90 % of its limit or more.
pub const PRESSURE_CRITICAL_LINES: [&'static str; 7] = [
    "Ciśnienie w reaktorze jest krytyczne! Obniż reaktywność!",
    "Ciśnienie wchodzi w niebezpieczną strefę! Uwaga!",
    "Za dużo ciśnienia! To nie garnek z bigos!",
    "Reaktor zaraz wybuchnie jak szampan! Ale bez radości!",
    "To nie jest konkurs na najwyższe ciśnienie! Obniż!",
    "Ciśnienie rośnie szybciej niż moje ciśnienie krwi!",
    "Reaktor puchnie jak balon! To nie jest dobry znak!",
];

/// Lines for a pressure between 80 % and 90 % of its limit.
pub const PRESSURE_HIGH_LINES: [&'static str; 5] = [
    "Ciśnienie w reaktorze rośnie. Uważaj.",
    "Manometr pokazuje za dużo. Kontroluj reaktywność.",
    "Ciśnienie rośnie... jak moje obawy o tę zmianę!",
    "Reaktor zaczyna się denerwować. Uspokój go!",
    "To nie jest konkurs na najwyższe ciśnienie!",
];

/// Lines for a turbine at 95 % of its temperature limit or more.
pub const TURBINE_CRITICAL_LINES: [&'static str; 3] = [
    "Turbina wyje! Ochłodź ją, zanim wybuchnie!",
    "Turbina w strefie krytycznej! Zmniejsz przepływ!",
    "Turbina zaraz się rozleci! Mniej pary!",
];

/// Lines for a turbine between 80 % and 95 % of its temperature limit.
pub const TURBINE_HOT_LINES: [&'static str; 3] = [
    "Turbina jest w strefie zagrożenia. Zmniejsz przepływ.",
    "Turbina się przegrzewa. Zmniejsz moc turbiny.",
    "Turbina nie lubi takich temperatur. Przygaś trochę.",
];

/// Lines for an operator with more than $2000.
pub const HIGH_EARNINGS_LINES: [&'static str; 5] = [
    "Świetnie! Ta elektrownia drukuje pieniądze.",
    "Doskonała robota! Wszystko działa jak należy.",
    "Reaktor działa stabilnie. Trzymaj tak dalej!",
    "Jesteś dobrym operatorem. Może nawet dostaniesz podwyżkę!",
    "Widzę, że ten tutorial coś dał! Dobra robota.",
];

/// Lines for a cool reactor and more than $500.
pub const STEADY_LINES: [&'static str; 3] = [
    "Reaktor działa spokojnie. Wszystko w porządku.",
    "Stabilna praca, stabilna kasa. Tak to ma wyglądać.",
    "W końcu mogę sobie spokojnie wypić kawę.",
];

/// The lines Uranek may say about `c`.
pub open spec fn comment_lines(c: Comment) -> Seq<&'static str> {
    match c {
        Comment::ReactorMeltdown => REACTOR_MELTDOWN_LINES@,
        Comment::ReactorCritical => REACTOR_CRITICAL_LINES@,
        Comment::ReactorHot => REACTOR_HOT_LINES@,
        Comment::ReactorWarm => REACTOR_WARM_LINES@,
        Comment::PressureCritical => PRESSURE_CRITICAL_LINES@,
        Comment::PressureHigh => PRESSURE_HIGH_LINES@,
        Comment::TurbineCritical => TURBINE_CRITICAL_LINES@,
        Comment::TurbineHot => TURBINE_HOT_LINES@,
        Comment::HighEarnings => HIGH_EARNINGS_LINES@,
        Comment::Steady => STEADY_LINES@,
    }
}

/// The number of lines about `c`.
pub fn comment_line_count(c: Comment) -> (n: usize)
    ensures
        n == comment_lines(c).len(),
        n > 0,
{
    match c {
        Comment::ReactorMeltdown => REACTOR_MELTDOWN_LINES.len(),
        Comment::ReactorCritical => REACTOR_CRITICAL_LINES.len(),
        Comment::ReactorHot => REACTOR_HOT_LINES.len(),
        Comment::ReactorWarm => REACTOR_WARM_LINES.len(),
        Comment::PressureCritical => PRESSURE_CRITICAL_LINES.len(),
        Comment::PressureHigh => PRESSURE_HIGH_LINES.len(),
        Comment::TurbineCritical => TURBINE_CRITICAL_LINES.len(),
        Comment::TurbineHot => TURBINE_HOT_LINES.len(),
        Comment::HighEarnings => HIGH_EARNINGS_LINES.len(),
        Comment::Steady => STEADY_LINES.len(),
    }
}

/// Line number `i` about `c`.
pub fn comment_line(c: Comment, i: usize) -> (line: &'static str)
    requires
        i < comment_lines(c).len(),
    ensures
        line == comment_lines(c)[i as int],
{
    match c {
        Comment::ReactorMeltdown => REACTOR_MELTDOWN_LINES[i],
        Comment::ReactorCritical => REACTOR_CRITICAL_LINES[i],
        Comment::ReactorHot => REACTOR_HOT_LINES[i],
        Comment::ReactorWarm => REACTOR_WARM_LINES[i],
        Comment::PressureCritical => PRESSURE_CRITICAL_LINES[i],
        Comment::PressureHigh => PRESSURE_HIGH_LINES[i],
        Comment::TurbineCritical => TURBINE_CRITICAL_LINES[i],
        Comment::TurbineHot => TURBINE_HOT_LINES[i],
        Comment::HighEarnings => HIGH_EARNINGS_LINES[i],
        Comment::Steady => STEADY_LINES[i],
    }
}

/// What Uranek has to say about the plant, hottest matters first: the
/// reactor's temperature (95, 90, 80 and 60 % of its limit), its pressure
/// (90 and 80 %), the turbine's temperature (95 and 80 % of its limit), then
/// money above $2000, or a reactor below 40 % with money above $500.
pub open spec fn comment_for(
    reactor_temp: int,
    reactor_pressure: int,
    turbine_temp: int,
    turbine_limit: int,
    money: int,
) -> Option<Comment> {
    let rl = REACTOR_TEMP_LIMIT as int;
    let pl = REACTOR_PRESSURE_LIMIT as int;
    if 100 * reactor_temp >= 95 * rl {
        Some(Comment::ReactorMeltdown)
    } else if 100 * reactor_temp >= 90 * rl {
        Some(Comment::ReactorCritical)
    } else if 100 * reactor_temp >= 80 * rl {
        Some(Comment::ReactorHot)
    } else if 100 * reactor_temp >= 60 * rl {
        Some(Comment::ReactorWarm)
    } else if 100 * reactor_pressure >= 90 * pl {
        Some(Comment::PressureCritical)
    } else if 100 * reactor_pressure >= 80 * pl {
        Some(Comment::PressureHigh)
    } else if 100 * turbine_temp >= 95 * turbine_limit {
        Some(Comment::TurbineCritical)
    } else if 100 * turbine_temp >= 80 * turbine_limit {
        Some(Comment::TurbineHot)
    } else if money > 2_000_000_000 {
        Some(Comment::HighEarnings)
    } else if 100 * reactor_temp < 40 * rl && money > 500_000_000 {
        Some(Comment::Steady)
    } else {
        None
    }
}

/// The comment for the current plant state, if any.
pub fn choose_comment(reactor: &ReactorState, turbine: &TurbineState, environment: &EnvironmentState) -> (c: Option<Comment>)
    ensures
        c == comment_for(
            reactor.temperature as int,
            reactor.pressure as int,
            turbine.temperature as int,
            turbine_limit(turbine.upgraded),
            environment.money as int,
        ),
        ({
            let rt = 100 * reactor.temperature;
            let rp = 100 * reactor.pressure;
            let tt = 100 * turbine.temperature;
            let rl = REACTOR_TEMP_LIMIT as int;
            let pl = REACTOR_PRESSURE_LIMIT as int;
            let tl = turbine_limit(turbine.upgraded);
            let money = environment.money;
            let cool_reactor = rt < 60 * rl;
            let calm_pressure = rp < 80 * pl;
            let cool_turbine = tt < 80 * tl;
            &&& rt >= 95 * rl ==> c == Some(Comment::ReactorMeltdown)
            &&& 90 * rl <= rt < 95 * rl ==> c == Some(Comment::ReactorCritical)
            &&& 80 * rl <= rt < 90 * rl ==> c == Some(Comment::ReactorHot)
            &&& 60 * rl <= rt < 80 * rl ==> c == Some(Comment::ReactorWarm)
            &&& cool_reactor && rp >= 90 * pl ==> c == Some(Comment::PressureCritical)
            &&& cool_reactor && 80 * pl <= rp < 90 * pl ==> c == Some(Comment::PressureHigh)
            &&& cool_reactor && calm_pressure && tt >= 95 * tl ==> c == Some(Comment::TurbineCritical)
            &&& cool_reactor && calm_pressure && 80 * tl <= tt < 95 * tl ==> c == Some(
                Comment::TurbineHot,
            )
            &&& cool_reactor && calm_pressure && cool_turbine && money > 2_000_000_000 ==> c == Some(
                Comment::HighEarnings,
            )
            &&& cool_reactor && calm_pressure && cool_turbine && money <= 2_000_000_000 && rt < 40 * rl
                && money > 500_000_000 ==> c == Some(Comment::Steady)
            &&& cool_reactor && calm_pressure && cool_turbine && money <= 2_000_000_000 && (rt >= 40 * rl
                || money <= 500_000_000) ==> c is None
        }),
{
    let rt = 100 * (reactor.temperature as i128);
    let rp = 100 * (reactor.pressure as i128);
    let tt = 100 * (turbine.temperature as i128);
    let rl = REACTOR_TEMP_LIMIT as i128;
    let pl = REACTOR_PRESSURE_LIMIT as i128;
    let tl = turbine.temp_limit() as i128;
    if rt >= 95 * rl {
        Some(Comment::ReactorMeltdown)
    } else if rt >= 90 * rl {
        Some(Comment::ReactorCritical)
    } else if rt >= 80 * rl {
        Some(Comment::ReactorHot)
    } else if rt >= 60 * rl {
        Some(Comment::ReactorWarm)
    } else if rp >= 90 * pl {
        Some(Comment::PressureCritical)
    } else if rp >= 80 * pl {
        Some(Comment::PressureHigh)
    } else if tt >= 95 * tl {
        Some(Comment::TurbineCritical)
    } else if tt >= 80 * tl {
        Some(Comment::TurbineHot)
    } else if environment.money > 2_000_000_000 {
        Some(Comment::HighEarnings)
    } else if rt < 40 * rl && environment.money > 500_000_000 {
        Some(Comment::Steady)
    } else {
        None
    }
}

/// Whether the greeting, shown since `last_default_text_time`, has had its
/// three seconds at `now`.
pub open spec fn greeting_expired(state: UranekState, now: int) -> bool {
    now - state.last_default_text_time > GREETING_DURATION && state.last_default_text_time > 0
}

/// Whether the current comment's time in the bubble is over at `now`.
pub open spec fn talk_expired(state: UranekState, now: int) -> bool {
    state.talk_timeout > 0 && now > state.talk_timeout
}

/// What Uranek says at `now`: a comment on the plant, once six seconds have
/// passed since the last one.
pub open spec fn due_comment(
    state: UranekState,
    now: int,
    reactor: ReactorState,
    turbine: TurbineState,
    environment: EnvironmentState,
) -> Option<Comment> {
    if now - state.last_comment_time >= COMMENT_COOLDOWN {
        comment_for(
            reactor.temperature as int,
            reactor.pressure as int,
            turbine.temperature as int,
            turbine_limit(turbine.upgraded),
            environment.money as int,
        )
    } else {
        None
    }
}

fn due_comment_exec(
    state: &UranekState,
    now_us: i64,
    reactor: &ReactorState,
    turbine: &TurbineState,
    environment: &EnvironmentState,
) -> (c: Option<Comment>)
    ensures
        c == due_comment(*state, now_us as int, *reactor, *turbine, *environment),
{
    if now_us as i128 - (state.last_comment_time as i128) >= COMMENT_COOLDOWN as i128 {
        choose_comment(reactor, turbine, environment)
    } else {
        None
    }
}

/// The bubble text once expired lines are cleared.
pub open spec fn text_after_expiry(state: UranekState, now: int, text: Seq<char>) -> Seq<char> {
    if greeting_expired(state, now) || talk_expired(state, now) {
        Seq::empty()
    } else {
        text
    }
}

/// The picture to switch to: the hot one while the reactor is in danger,
/// back to idle once it is safe again; `None` keeps the current picture.
pub open spec fn sprite_after(in_danger: bool, current: UranekSprite) -> Option<UranekSprite> {
    if in_danger {
        Some(UranekSprite::Hot)
    } else if current == UranekSprite::Hot {
        Some(UranekSprite::Idle)
    } else {
        None
    }
}

/// What the game shows and plays after Uranek's dialogue step: the picture to
/// switch to, the talking clip to play (numbered from 1) and whether the
/// speech bubble is visible.
pub struct DialogueUpdate {
    pub sprite: Option<UranekSprite>,
    pub talk_clip: Option<u64>,
    pub bubble_visible: bool,
}

/// Uranek's dialogue at time `now_us`, with the line and the clip picked by
/// `line_roll` and `clip_roll`. The greeting goes after three seconds and a
/// comment after its four seconds; every six seconds at most a new comment
/// (see `comment_for`) replaces the text, picks line `line_roll` modulo the
/// number of lines and clip `clip_roll` modulo 10, plus one; the hot picture
/// shows while the reactor is in danger; the bubble shows while there is text.
pub fn speak_uranek_dialogue(
    state: &mut UranekState,
    text: &mut String,
    now_us: i64,
    reactor: &ReactorState,
    turbine: &TurbineState,
    environment: &EnvironmentState,
    current_sprite: UranekSprite,
    line_roll: usize,
    clip_roll: u64,
) -> (update: DialogueUpdate)
    requires
        now_us <= i64::MAX - TALK_DURATION,
    ensures
        final(state).last_blink_time == old(state).last_blink_time,
        final(state).blink_frame == old(state).blink_frame,
        final(state).last_default_text_time == (if greeting_expired(*old(state), now_us as int) {
            0
        } else {
            old(state).last_default_text_time
        }),
        update.sprite == sprite_after(
            reactor_in_danger(reactor.temperature as int, reactor.pressure as int),
            current_sprite,
        ),
        (100 * reactor.temperature >= 80 * REACTOR_TEMP_LIMIT || 100 * reactor.pressure >= 80
            * REACTOR_PRESSURE_LIMIT) ==> update.sprite == Some(UranekSprite::Hot),
        (100 * reactor.temperature < 80 * REACTOR_TEMP_LIMIT && 100 * reactor.pressure < 80
            * REACTOR_PRESSURE_LIMIT && current_sprite == UranekSprite::Hot) ==> update.sprite == Some(
            UranekSprite::Idle,
        ),
        (100 * reactor.temperature < 80 * REACTOR_TEMP_LIMIT && 100 * reactor.pressure < 80
            * REACTOR_PRESSURE_LIMIT && current_sprite != UranekSprite::Hot) ==> update.sprite is None,
        update.bubble_visible == (final(text)@.len() > 0),
        match due_comment(*old(state), now_us as int, *reactor, *turbine, *environment) {
            Some(c) => {
                let lines = comment_lines(c);
                &&& final(text)@ == "Uranek: "@ + lines[(line_roll % (lines.len() as usize)) as int]@
                &&& update.talk_clip == Some((clip_roll % TALKING_CLIPS + 1) as u64)
                &&& final(state).last_comment_time == now_us
                &&& final(state).talk_timeout == now_us + TALK_DURATION
            },
            None => {
                &&& final(text)@ == text_after_expiry(*old(state), now_us as int, old(text)@)
                &&& update.talk_clip is None
                &&& final(state).last_comment_time == old(state).last_comment_time
                &&& final(state).talk_timeout == (if talk_expired(*old(state), now_us as int) {
                    0
                } else {
                    old(state).talk_timeout
                })
            },
        },
{
    let now = now_us as i128;
    if now - (state.last_default_text_time as i128) > GREETING_DURATION as i128
        && state.last_default_text_time > 0 {
        *text = String::new();
        state.last_default_text_time = 0;
    }
    if state.talk_timeout > 0 && now_us > state.talk_timeout {
        *text = String::new();
        state.talk_timeout = 0;
    }
    let comment = due_comment_exec(state, now_us, reactor, turbine, environment);
    let danger = reactor_in_danger_exec(reactor);
    let sprite = if danger {
        Some(UranekSprite::Hot)
    } else if current_sprite == UranekSprite::Hot {
        Some(UranekSprite::Idle)
    } else {
        None
    };
    let mut talk_clip: Option<u64> = None;
    match comment {
        Some(c) => {
            let n = comment_line_count(c);
            *text = uranek_prefix(comment_line(c, line_roll % n));
            talk_clip = Some(clip_roll % TALKING_CLIPS + 1);
            state.last_comment_time = now_us;
            state.talk_timeout = now_us + TALK_DURATION;
        },
        None => {},
    }
    let bubble_visible = !text.as_str().is_empty();
    DialogueUpdate { sprite, talk_clip, bubble_visible }
}

/// Uranek's dialogue at time `now_us`, as `speak_uranek_dialogue` with the
/// line and the talking clip drawn at random.
pub fn update_uranek_dialogue(
    state: &mut UranekState,
    text: &mut String,
    now_us: i64,
    reactor: &ReactorState,
    turbine: &TurbineState,
    environment: &EnvironmentState,
    current_sprite: UranekSprite,
) -> (update: DialogueUpdate)
    requires
        now_us <= i64::MAX - TALK_DURATION,
    ensures
        final(state).last_blink_time == old(state).last_blink_time,
        final(state).blink_frame == old(state).blink_frame,
        final(state).last_default_text_time == (if greeting_expired(*old(state), now_us as int) {
            0
        } else {
            old(state).last_default_text_time
        }),
        update.sprite == sprite_after(
            reactor_in_danger(reactor.temperature as int, reactor.pressure as int),
            current_sprite,
        ),
        (100 * reactor.temperature >= 80 * REACTOR_TEMP_LIMIT || 100 * reactor.pressure >= 80
            * REACTOR_PRESSURE_LIMIT) ==> update.sprite == Some(UranekSprite::Hot),
        (100 * reactor.temperature < 80 * REACTOR_TEMP_LIMIT && 100 * reactor.pressure < 80
            * REACTOR_PRESSURE_LIMIT && current_sprite == UranekSprite::Hot) ==> update.sprite == Some(
            UranekSprite::Idle,
        ),
        (100 * reactor.temperature < 80 * REACTOR_TEMP_LIMIT && 100 * reactor.pressure < 80
            * REACTOR_PRESSURE_LIMIT && current_sprite != UranekSprite::Hot) ==> update.sprite is None,
        update.bubble_visible == (final(text)@.len() > 0),
        match due_comment(*old(state), now_us as int, *reactor, *turbine, *environment) {
            Some(c) => {
                &&& exists|i: int|
                    0 <= i < comment_lines(c).len() && final(text)@ == "Uranek: "@
                        + #[trigger] comment_lines(c)[i]@
                &&& update.talk_clip matches Some(k) && 1 <= k <= TALKING_CLIPS
                &&& final(state).last_comment_time == now_us
                &&& final(state).talk_timeout == now_us + TALK_DURATION
            },
            None => {
                &&& final(text)@ == text_after_expiry(*old(state), now_us as int, old(text)@)
                &&& update.talk_clip is None
                &&& final(state).last_comment_time == old(state).last_comment_time
                &&& final(state).talk_timeout == (if talk_expired(*old(state), now_us as int) {
                    0
                } else {
                    old(state).talk_timeout
                })
            },
        },
{
    let (line_roll, clip_roll) = match due_comment_exec(state, now_us, reactor, turbine, environment) {
        Some(c) => (random_below(comment_line_count(c)), random_below(10) as u64),
        None => (0, 0),
    };
    let update = speak_uranek_dialogue(
        state,
        text,
        now_us,
        reactor,
        turbine,
        environment,
        current_sprite,
        line_roll,
        clip_roll,
    );
    update
}

impl UranekState {
    /// Uranek's state when a game starts at `now_us`: the greeting is shown from then on.
    pub fn new_game(now_us: i64) -> (s: UranekState)
        ensures
            s.last_blink_time == 0,
            s.blink_frame == 0,
            s.last_comment_time == -999_000_000,
            s.last_default_text_time == now_us,
            s.talk_timeout == 0,
    {
        UranekState { last_default_text_time: now_us, ..UranekState::default() }
    }
}

/// Two comments are at least six seconds apart: once Uranek has commented
/// at `said_at`, the next comment is due no earlier than six seconds later.
pub proof fn lemma_comments_spaced(
    state: UranekState,
    said_at: int,
    now: int,
    reactor: ReactorState,
    turbine: TurbineState,
    environment: EnvironmentState,
)
    requires
        state.last_comment_time == said_at,
        due_comment(state, now, reactor, turbine, environment) is Some,
    ensures
        now >= said_at + COMMENT_COOLDOWN,
{
}

/// Uranek switches to the hot picture exactly while the reactor is in
/// danger, leaves it as soon as the danger is over, and otherwise leaves the
/// picture (such as a blink) alone.
pub proof fn lemma_hot_picture_tracks_danger(in_danger: bool, current: UranekSprite)
    ensures
        (sprite_after(in_danger, current) == Some(UranekSprite::Hot)) == in_danger,
        !in_danger && current == UranekSprite::Hot ==> sprite_after(in_danger, current) == Some(
            UranekSprite::Idle,
        ),
        !in_danger && current != UranekSprite::Hot ==> sprite_after(in_danger, current) is None,
{
}

/// The reactor's pressure comes before the turbine and the money: with the
/// core below 60 % of its limit, a pressure at 90 % of its limit or more is
/// always commented on as critical and one at 80 to 90 % as high, whatever
/// the turbine's temperature and the money; a hot core comes before everything.
pub proof fn lemma_pressure_before_turbine(
    reactor_temp: int,
    reactor_pressure: int,
    turbine_temp_a: int,
    turbine_temp_b: int,
    turbine_limit: int,
    money_a: int,
    money_b: int,
)
    ensures
        100 * reactor_temp < 60 * REACTOR_TEMP_LIMIT && 100 * reactor_pressure >= 90 * REACTOR_PRESSURE_LIMIT
            ==> comment_for(reactor_temp, reactor_pressure, turbine_temp_a, turbine_limit, money_a)
            == Some(Comment::PressureCritical),
        100 * reactor_temp < 60 * REACTOR_TEMP_LIMIT && 80 * REACTOR_PRESSURE_LIMIT <= 100
            * reactor_pressure < 90 * REACTOR_PRESSURE_LIMIT ==> comment_for(
            reactor_temp,
            reactor_pressure,
            turbine_temp_a,
            turbine_limit,
            money_a,
        ) == Some(Comment::PressureHigh),
        100 * reactor_temp >= 60 * REACTOR_TEMP_LIMIT || 100 * reactor_pressure >= 80
            * REACTOR_PRESSURE_LIMIT ==> comment_for(
            reactor_temp,
            reactor_pressure,
            turbine_temp_a,
            turbine_limit,
            money_a,
        ) == comment_for(reactor_temp, reactor_pressure, turbine_temp_b, turbine_limit, money_b),
{
}

/// `msg` as said by Uranek.
pub fn uranek_prefix(msg: &str) -> (s: String)
    ensures
        s@ == "Uranek: "@ + msg@,
{
    String::from_str("Uranek: ").concat(msg)
}

} // verus!

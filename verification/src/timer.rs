//! The phase state machine: current phase, remaining seconds, the
//! completed-work-round counter and the play/pause flag, with its two
//! transitions, advance-tick and toggle-pause.

use vstd::prelude::*;

verus! {

/// The three phases the timer cycles through.
#[derive(Clone, Copy, Debug, PartialEq, Eq, Structural)]
pub enum Phase {
    Work,
    ShortBreak,
    LongBreak,
}

/// The notification fired at the moment a phase transition completes,
/// named after the phase being entered.
#[derive(Clone, Copy, Debug, PartialEq, Eq, Structural)]
pub enum Notification {
    WorkStart,
    ShortBreakStart,
    LongBreakStart,
}

impl Notification {
    /// The notification body announcing the phase being entered.
    pub open spec fn message_spec(self) -> Seq<char> {
        match self {
            Notification::WorkStart => "Work start!"@,
            Notification::ShortBreakStart => "Short break start!"@,
            Notification::LongBreakStart => "Long break start!"@,
        }
    }

    /// The notification body as a string, for the loop to dispatch.
    pub fn message(&self) -> (r: String)
        ensures
            r@ == self.message_spec(),
    {
        match self {
            Notification::WorkStart => String::from_str("Work start!"),
            Notification::ShortBreakStart => String::from_str("Short break start!"),
            Notification::LongBreakStart => String::from_str("Long break start!"),
        }
    }
}

/// The immutable startup configuration: the three phase durations, in
/// seconds, all positive.
#[derive(Clone, Copy, Debug, PartialEq, Eq, Structural)]
pub struct Config {
    pub work: u16,
    pub short: u16,
    pub long: u16,
}

/// The timer's mutable state, owned by the event loop and advanced one
/// tick at a time.
#[derive(Clone, Copy, Debug, PartialEq, Eq, Structural)]
pub struct TimerState {
    pub phase: Phase,
    pub remaining_seconds: u16,
    pub completed_work_rounds: u8,
    pub playing: bool,
}

impl Config {
    /// All three durations are positive: a phase always starts with at
    /// least one second on the clock.
    pub open spec fn wf(self) -> bool {
        1 <= self.work && 1 <= self.short && 1 <= self.long
    }
}

impl TimerState {
    /// The countdown never rests at zero (reaching zero triggers a phase
    /// transition within the same tick), and the round counter stays in
    /// the range the round rule produces.
    pub open spec fn wf(self) -> bool {
        1 <= self.remaining_seconds && self.completed_work_rounds <= 4
    }
}

/// The state the timer starts in: a Work phase with the full work
/// duration on the clock, round counter at 1, counting down.
pub open spec fn init_spec(cfg: Config) -> TimerState {
    TimerState {
        phase: Phase::Work,
        remaining_seconds: cfg.work,
        completed_work_rounds: 1,
        playing: true,
    }
}

/// Creates the initial timer state for a configuration.
pub fn init(cfg: &Config) -> (s: TimerState)
    requires
        cfg.wf(),
    ensures
        s == init_spec(*cfg),
        s.wf(),
{
    TimerState {
        phase: Phase::Work,
        remaining_seconds: cfg.work,
        completed_work_rounds: 1,
        playing: true,
    }
}

/// What toggle-pause does: flip the play/pause flag and touch nothing
/// else.
pub open spec fn toggle_spec(s: TimerState) -> TimerState {
    TimerState { playing: !s.playing, ..s }
}

/// Flips the play/pause flag; phase, remaining seconds and the round
/// counter are untouched.
pub fn toggle_pause(state: &mut TimerState)
    ensures
        *final(state) == toggle_spec(*old(state)),
        final(state).playing == !old(state).playing,
        final(state).phase == old(state).phase,
        final(state).remaining_seconds == old(state).remaining_seconds,
        final(state).completed_work_rounds == old(state).completed_work_rounds,
{
    state.playing = !state.playing;
}

/// What advance-tick does to the state. While paused, time is frozen.
/// While playing, the countdown drops by one; the tick on which it
/// reaches zero performs the phase transition in the same step:
/// a completed Work phase with the round counter at 4 enters the long
/// break and resets the counter to 0; any other completed Work phase
/// enters the short break and increments the counter; a completed break
/// of either kind re-enters Work and leaves the counter alone.
pub open spec fn tick_spec(s: TimerState, cfg: Config) -> TimerState {
    if !s.playing {
        s
    } else if s.remaining_seconds > 1 {
        TimerState { remaining_seconds: (s.remaining_seconds - 1) as u16, ..s }
    } else {
        match s.phase {
            Phase::Work => {
                if s.completed_work_rounds == 4 {
                    TimerState {
                        phase: Phase::LongBreak,
                        remaining_seconds: cfg.long,
                        completed_work_rounds: 0,
                        playing: s.playing,
                    }
                } else {
                    TimerState {
                        phase: Phase::ShortBreak,
                        remaining_seconds: cfg.short,
                        completed_work_rounds: (s.completed_work_rounds + 1) as u8,
                        playing: s.playing,
                    }
                }
            },
            _ => {
                TimerState {
                    phase: Phase::Work,
                    remaining_seconds: cfg.work,
                    completed_work_rounds: s.completed_work_rounds,
                    playing: s.playing,
                }
            },
        }
    }
}

/// The notification a tick fires: one exactly when the tick performs a
/// phase transition, named after the phase being entered.
pub open spec fn tick_effect(s: TimerState, cfg: Config) -> Option<Notification> {
    if !s.playing || s.remaining_seconds > 1 {
        None
    } else {
        match s.phase {
            Phase::Work => {
                if s.completed_work_rounds == 4 {
                    Some(Notification::LongBreakStart)
                } else {
                    Some(Notification::ShortBreakStart)
                }
            },
            _ => Some(Notification::WorkStart),
        }
    }
}

/// Advances the timer by one tick and returns the notification to fire,
/// if this tick completed a phase.
pub fn tick(state: &mut TimerState, cfg: &Config) -> (fired: Option<Notification>)
    requires
        old(state).wf(),
        cfg.wf(),
    ensures
        *final(state) == tick_spec(*old(state), *cfg),
        fired == tick_effect(*old(state), *cfg),
        final(state).wf(),
        final(state).playing == old(state).playing,
{
    if !state.playing {
        return None;
    }
    state.remaining_seconds = state.remaining_seconds - 1;
    if state.remaining_seconds == 0 {
        match state.phase {
            Phase::Work => {
                if state.completed_work_rounds == 4 {
                    state.phase = Phase::LongBreak;
                    state.remaining_seconds = cfg.long;
                    state.completed_work_rounds = 0;
                    Some(Notification::LongBreakStart)
                } else {
                    state.phase = Phase::ShortBreak;
                    state.remaining_seconds = cfg.short;
                    state.completed_work_rounds = state.completed_work_rounds + 1;
                    Some(Notification::ShortBreakStart)
                }
            },
            _ => {
                state.phase = Phase::Work;
                state.remaining_seconds = cfg.work;
                Some(Notification::WorkStart)
            },
        }
    } else {
        None
    }
}

/// The state after `n` consecutive ticks from `s`.
pub open spec fn iter_tick(s: TimerState, cfg: Config, n: nat) -> TimerState
    decreases n,
{
    if n == 0 {
        s
    } else {
        tick_spec(iter_tick(s, cfg, (n - 1) as nat), cfg)
    }
}

/// A tick from this state completes a Work phase.
pub open spec fn is_work_completion(s: TimerState) -> bool {
    s.playing && s.remaining_seconds == 1 && s.phase == Phase::Work
}

/// How many of the first `n` ticks from `s` complete a Work phase.
pub open spec fn work_completions(s: TimerState, cfg: Config, n: nat) -> nat
    decreases n,
{
    if n == 0 {
        0
    } else {
        work_completions(s, cfg, (n - 1) as nat) + if is_work_completion(
            iter_tick(s, cfg, (n - 1) as nat),
        ) {
            1 as nat
        } else {
            0 as nat
        }
    }
}

/// The countdown can never be exhausted below one second: a single tick
/// keeps the state well formed, its result always has at least one
/// second remaining, and a phase transition fires exactly on the tick
/// whose decrement reaches zero — the one taken from a playing state
/// with one second left.
pub proof fn lemma_tick_exact_transition(s: TimerState, cfg: Config)
    requires
        s.wf(),
        cfg.wf(),
    ensures
        tick_spec(s, cfg).wf(),
        tick_spec(s, cfg).remaining_seconds >= 1,
        tick_effect(s, cfg) is Some <==> s.playing && s.remaining_seconds == 1,
        tick_spec(s, cfg).phase != s.phase ==> tick_effect(s, cfg) is Some,
{
}

/// For every tick sequence: every state a well-formed timer reaches is
/// well formed, so `remaining_seconds` stays at one second or more.
pub proof fn lemma_iter_tick_wf(s: TimerState, cfg: Config, n: nat)
    requires
        s.wf(),
        cfg.wf(),
    ensures
        iter_tick(s, cfg, n).wf(),
    decreases n,
{
    if n > 0 {
        lemma_iter_tick_wf(s, cfg, (n - 1) as nat);
    }
}

/// Time is frozen while paused: any number of ticks from a paused state
/// leaves it exactly as it was.
pub proof fn lemma_paused_frozen(s: TimerState, cfg: Config, n: nat)
    requires
        !s.playing,
    ensures
        iter_tick(s, cfg, n) == s,
    decreases n,
{
    if n > 0 {
        lemma_paused_frozen(s, cfg, (n - 1) as nat);
    }
}

/// Pausing, letting `n` ticks pass, and resuming restores exactly the
/// state before the pause: the same `remaining_seconds` as never pausing
/// and simply not advancing — no drift, no double decrement.
pub proof fn lemma_pause_resume_no_drift(s: TimerState, cfg: Config, n: nat)
    requires
        s.playing,
    ensures
        toggle_spec(iter_tick(toggle_spec(s), cfg, n)) == s,
        iter_tick(toggle_spec(s), cfg, n).remaining_seconds == s.remaining_seconds,
{
    lemma_paused_frozen(toggle_spec(s), cfg, n);
}

/// Toggling pause twice in succession returns the state — `playing`
/// included — to exactly its original value.
pub proof fn lemma_toggle_twice(s: TimerState)
    ensures
        toggle_spec(toggle_spec(s)) == s,
{
}

/// The count of Work completions never shrinks as the tick sequence
/// grows.
pub proof fn lemma_work_completions_monotone(s: TimerState, cfg: Config, i: nat, n: nat)
    requires
        i <= n,
    ensures
        work_completions(s, cfg, i) <= work_completions(s, cfg, n),
    decreases n,
{
    if i < n {
        lemma_work_completions_monotone(s, cfg, i, (n - 1) as nat);
    }
}

/// The round rule, along any tick sequence: starting with the round
/// counter at 1, as long as at most three Work phases have completed the
/// counter reads exactly 1 plus the number of completed Work phases, and
/// every transition fired so far out of Work went to the short break.
pub proof fn lemma_round_rule(s: TimerState, cfg: Config, n: nat)
    requires
        s.wf(),
        cfg.wf(),
        s.completed_work_rounds == 1,
        work_completions(s, cfg, n) <= 3,
    ensures
        iter_tick(s, cfg, n).completed_work_rounds == 1 + work_completions(s, cfg, n),
        iter_tick(s, cfg, n).wf(),
        forall|i: nat|
            i < n && is_work_completion(iter_tick(s, cfg, i)) ==> tick_effect(
                iter_tick(s, cfg, i),
                cfg,
            ) == Some(Notification::ShortBreakStart),
    decreases n,
{
    if n > 0 {
        let m = (n - 1) as nat;
        lemma_work_completions_monotone(s, cfg, m, n);
        lemma_round_rule(s, cfg, m);
        assert(forall|i: nat|
            i < m && is_work_completion(iter_tick(s, cfg, i)) ==> tick_effect(
                iter_tick(s, cfg, i),
                cfg,
            ) == Some(Notification::ShortBreakStart));
    }
}

/// The fourth completed Work phase is the one that enters the long
/// break: with the counter started at 1 and three Work phases already
/// completed, the tick completing the fourth fires the long-break
/// notification, and the counter is 0 immediately after.
pub proof fn lemma_fourth_work_completion(s: TimerState, cfg: Config, n: nat)
    requires
        s.wf(),
        cfg.wf(),
        s.completed_work_rounds == 1,
        work_completions(s, cfg, n) == 3,
        is_work_completion(iter_tick(s, cfg, n)),
    ensures
        tick_effect(iter_tick(s, cfg, n), cfg) == Some(Notification::LongBreakStart),
        iter_tick(s, cfg, (n + 1) as nat).phase == Phase::LongBreak,
        iter_tick(s, cfg, (n + 1) as nat).remaining_seconds == cfg.long,
        iter_tick(s, cfg, (n + 1) as nat).completed_work_rounds == 0,
{
    lemma_round_rule(s, cfg, n);
}

} // verus!

//! The decision logic of the event loop: one step takes the pending
//! input event, if any, and says what the loop is to do — consume the
//! key, quit, or render a frame and advance the countdown.

use vstd::prelude::*;
use crate::render::display;
use crate::render::display_spec;
use crate::timer::Config;
use crate::timer::Notification;
use crate::timer::TimerState;
use crate::timer::tick;
use crate::timer::tick_effect;
use crate::timer::tick_spec;
use crate::timer::toggle_pause;
use crate::timer::toggle_spec;

verus! {

/// One terminal event, reduced to what the key dispatch reads: the
/// character pressed and whether Control was held, or some other event.
#[derive(Clone, Copy, Debug, PartialEq, Eq, Structural)]
pub enum InputEvent {
    Key { ch: char, ctrl: bool },
    Other,
}

/// What the event loop is to do after one step.
#[derive(Debug, PartialEq, Eq)]
pub enum StepAction {
    /// An input event was consumed: poll again at once; nothing is
    /// drawn and no time passes.
    Handled,
    /// A quit key was consumed: leave the loop.
    Quit,
    /// No input was pending: draw `frame` — in green if `green`, else
    /// in red — fire `fired` if set, and sleep for one second.
    Tick { frame: String, green: bool, fired: Option<Notification> },
}

/// The keys that toggle pause: `p` and the space bar, with or without
/// modifiers.
pub open spec fn is_toggle_key(ch: char, ctrl: bool) -> bool {
    ch == 'p' || ch == ' '
}

/// The keys that quit: `q` with or without modifiers, and Ctrl+C.
pub open spec fn is_quit_key(ch: char, ctrl: bool) -> bool {
    ch == 'q' || (ch == 'c' && ctrl)
}

/// One iteration of the event loop, input drained with strict priority
/// over the countdown. A pending event is consumed without advancing
/// time: a pause key toggles the play flag, a quit key ends the loop
/// with the state untouched and nothing fired, anything else is
/// ignored. With no event pending, the current state is rendered —
/// green while playing, red while paused — and one tick is taken.
pub fn loop_step(state: &mut TimerState, cfg: &Config, event: Option<InputEvent>) -> (act:
    StepAction)
    requires
        old(state).wf(),
        cfg.wf(),
    ensures
        final(state).wf(),
        match event {
            Some(InputEvent::Key { ch, ctrl }) => {
                if is_toggle_key(ch, ctrl) {
                    act == StepAction::Handled && *final(state) == toggle_spec(*old(state))
                } else if is_quit_key(ch, ctrl) {
                    act == StepAction::Quit && *final(state) == *old(state)
                } else {
                    act == StepAction::Handled && *final(state) == *old(state)
                }
            },
            Some(InputEvent::Other) => act == StepAction::Handled && *final(state) == *old(state),
            None => {
                &&& *final(state) == tick_spec(*old(state), *cfg)
                &&& act matches StepAction::Tick { frame, green, fired } && frame@ == display_spec(
                    old(state).remaining_seconds,
                    old(state).phase,
                ) && green == old(state).playing && fired == tick_effect(*old(state), *cfg)
            },
        },
{
    match event {
        Some(InputEvent::Key { ch, ctrl }) => {
            if ch == 'p' || ch == ' ' {
                toggle_pause(state);
                StepAction::Handled
            } else if ch == 'q' || (ch == 'c' && ctrl) {
                StepAction::Quit
            } else {
                StepAction::Handled
            }
        },
        Some(InputEvent::Other) => StepAction::Handled,
        None => {
            let frame = display(state.remaining_seconds, &state.phase);
            let green = state.playing;
            let fired = tick(state, cfg);
            StepAction::Tick { frame, green, fired }
        },
    }
}

} // verus!

//! A pomodoro interval timer: a phase state machine that counts work and
//! break periods down second by second, the formatting of its display line,
//! and the decision logic of the event loop that drives it.

pub mod event;
pub mod render;
pub mod timer;

pub use timer::Config;
pub use timer::Notification;
pub use timer::Phase;
pub use timer::TimerState;

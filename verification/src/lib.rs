//! A work/break interval timer: a pure "MM:SS" duration formatter and the
//! state machine that alternates a fixed work period and a fixed break
//! period, decrementing by measured elapsed time between ticks.

pub mod label;
pub mod laws;
pub mod timer;

pub use label::seconds_to_label;
pub use timer::Phase;
pub use timer::TimerState;

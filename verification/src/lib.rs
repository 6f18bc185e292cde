//! A countdown-timer engine for a pomodoro focus/break cycle.
//!
//! One sprint clock owns a single interval's lifecycle: it is started,
//! advanced one whole second at a time by a caller-driven tick event,
//! paused and resumed without losing elapsed seconds, and stopped.  A
//! timer session holds the one active clock and swaps it out whenever a
//! new interval is requested.  When a running clock's elapsed time
//! reaches its configured total, the next progress query invokes the
//! caller-supplied completion callback exactly once.

pub mod pomodoro_timer;
pub mod sprint;

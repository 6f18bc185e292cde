//! One interval's timing state machine: status, elapsed seconds, and the
//! at-most-once completion callback.

use vstd::prelude::*;

verus! {

/// Whole seconds in a work sprint.
pub const POMODORO_TIME: i16 = 25 * 60;
/// Whole seconds in a short break.
pub const SHORT_BREAK_TIME: i16 = 5 * 60;
/// Whole seconds in a long break.
pub const LONG_BREAK_TIME: i16 = 15 * 60;

/// Which interval a clock measures.
pub enum SprintType {
    Pomodoro,
    ShortBreak,
    LongBreak,
}

/// Lifecycle status of one clock.  Exactly one variant holds at a time.
pub enum Status {
    Running,
    Paused,
    Stopped,
}

/// Configured duration of an interval kind, in whole seconds.
pub open spec fn total_spec(t: SprintType) -> int {
    match t {
        SprintType::Pomodoro => POMODORO_TIME as int,
        SprintType::ShortBreak => SHORT_BREAK_TIME as int,
        SprintType::LongBreak => LONG_BREAK_TIME as int,
    }
}

/// Percent of an interval completed, truncated to a whole number and
/// clamped to 100.
pub open spec fn percent_spec(elapsed: int, total: int) -> int {
    if elapsed * 100 / total > 100 {
        100
    } else {
        elapsed * 100 / total
    }
}

/// Where a tick event with sequence index `i` carries the elapsed
/// counter: forward to `i`, never backward, never past the total.
pub open spec fn advance_spec(elapsed: int, i: int, total: int) -> int {
    if i <= elapsed {
        elapsed
    } else if i <= total {
        i
    } else {
        total
    }
}

/// One interval instance: its kind, elapsed whole seconds, status, and
/// the completion callback handed in at construction.
pub struct SprintImpl<F: Fn()> {
    elapsed: i16,
    status: Status,
    sprint_type: SprintType,
    notification: F,
    fires: Ghost<nat>,
}

/// The verified interface of one interval clock.
pub trait Sprint: Sized {
    /// Internal consistency of one clock instance.
    spec fn inv(&self) -> bool;

    /// Whole seconds elapsed so far.
    spec fn elapsed_s(&self) -> int;

    /// Current lifecycle status.
    spec fn status_s(&self) -> Status;

    /// Configured total duration, whole seconds.
    spec fn total_s(&self) -> int;

    /// How many times the completion callback has been invoked.
    spec fn fires_s(&self) -> nat;

    /// Set the clock running; elapsed seconds are kept, so a restart
    /// after a pause resumes from the frozen value.
    fn start(&mut self)
        requires
            old(self).inv(),
        ensures
            final(self).inv(),
            final(self).status_s() is Running,
            final(self).elapsed_s() == old(self).elapsed_s(),
            final(self).total_s() == old(self).total_s(),
            final(self).fires_s() == old(self).fires_s(),
    ;

    /// Stop the clock for good; elapsed seconds are kept as they stand.
    fn stop(&mut self)
        requires
            old(self).inv(),
        ensures
            final(self).inv(),
            final(self).status_s() is Stopped,
            final(self).elapsed_s() == old(self).elapsed_s(),
            final(self).total_s() == old(self).total_s(),
            final(self).fires_s() == old(self).fires_s(),
    ;

    /// Running flips to paused; paused flips back to running with the
    /// elapsed seconds untouched; a stopped clock stays stopped.
    fn pause_toggle(&mut self)
        requires
            old(self).inv(),
        ensures
            final(self).inv(),
            final(self).elapsed_s() == old(self).elapsed_s(),
            final(self).total_s() == old(self).total_s(),
            final(self).fires_s() == old(self).fires_s(),
            final(self).status_s() == (match old(self).status_s() {
                Status::Running => Status::Paused,
                Status::Paused => Status::Running,
                Status::Stopped => Status::Stopped,
            }),
    ;

    /// Percent completed.  The one query with a side effect: the first
    /// call that observes a running clock at one hundred percent stops
    /// the clock and invokes the completion callback, once.
    fn progress(&mut self) -> (p: i8)
        requires
            old(self).inv(),
        ensures
            final(self).inv(),
            p == percent_spec(old(self).elapsed_s(), old(self).total_s()),
            0 <= p <= 100,
            final(self).elapsed_s() == old(self).elapsed_s(),
            final(self).total_s() == old(self).total_s(),
            final(self).fires_s() == old(self).fires_s() + (if old(self).status_s() is Running
                && percent_spec(old(self).elapsed_s(), old(self).total_s()) == 100 {
                1nat
            } else {
                0nat
            }),
            final(self).status_s() == (if old(self).status_s() is Running
                && percent_spec(old(self).elapsed_s(), old(self).total_s()) == 100 {
                Status::Stopped
            } else {
                old(self).status_s()
            }),
    ;

    /// Remaining whole seconds; together with the elapsed seconds it
    /// always accounts for the whole configured duration.
    fn remaining(&self) -> (r: i16)
        requires
            self.inv(),
        ensures
            r + self.elapsed_s() == self.total_s(),
            r >= 0,
    ;
}

impl<F: Fn()> Sprint for SprintImpl<F> {
    closed spec fn inv(&self) -> bool {
        &&& 0 <= self.elapsed <= total_spec(self.sprint_type)
        &&& call_requires(self.notification, ())
    }

    closed spec fn elapsed_s(&self) -> int {
        self.elapsed as int
    }

    closed spec fn status_s(&self) -> Status {
        self.status
    }

    closed spec fn total_s(&self) -> int {
        total_spec(self.sprint_type)
    }

    closed spec fn fires_s(&self) -> nat {
        self.fires@
    }

    fn start(&mut self) {
        self.status = Status::Running;
    }

    fn stop(&mut self) {
        self.status = Status::Stopped;
    }

    fn pause_toggle(&mut self) {
        match self.status {
            Status::Running => {
                self.status = Status::Paused;
            }
            Status::Paused => {
                self.start();
            }
            Status::Stopped => {}
        }
    }

    fn progress(&mut self) -> (p: i8) {
        let total = self.total_time();
        let pct32: i32 = (self.elapsed as i32) * 100 / (total as i32);
        let pct: i8 = if pct32 >= 100 {
            100
        } else {
            pct32 as i8
        };
        if pct >= 100 {
            match self.status {
                Status::Running => {
                    self.status = Status::Stopped;
                    self.fires = Ghost(self.fires@ + 1);
                    (self.notification)();
                }
                _ => {}
            }
        }
        pct
    }

    fn remaining(&self) -> (r: i16) {
        self.total_time() - self.elapsed
    }
}

impl<F: Fn()> SprintImpl<F> {
    /// A fresh, stopped clock of kind `t` with nothing elapsed, holding
    /// the completion callback `n`.
    pub fn new(t: SprintType, n: F) -> (s: Self)
        requires
            call_requires(n, ()),
        ensures
            s.inv(),
            s.elapsed_s() == 0,
            s.status_s() is Stopped,
            s.total_s() == total_spec(t),
            s.fires_s() == 0,
    {
        Self {
            elapsed: 0,
            status: Status::Stopped,
            sprint_type: t,
            notification: n,
            fires: Ghost(0),
        }
    }

    /// The configured duration of this clock's kind, whole seconds.
    pub fn total_time(&self) -> (t: i16)
        ensures
            t == self.total_s(),
    {
        match self.sprint_type {
            SprintType::Pomodoro => POMODORO_TIME,
            SprintType::ShortBreak => SHORT_BREAK_TIME,
            SprintType::LongBreak => LONG_BREAK_TIME,
        }
    }

    /// One tick event with sequence index `i`.  A running clock carries
    /// its elapsed counter to `i` (never backward, never past the
    /// total); any other clock is left exactly as it stands.  Returns
    /// whether the tick loop should go on: the clock is still running
    /// and has seconds left.
    pub fn tick(&mut self, i: i16) -> (cont: bool)
        requires
            old(self).inv(),
        ensures
            final(self).inv(),
            final(self).status_s() == old(self).status_s(),
            final(self).total_s() == old(self).total_s(),
            final(self).fires_s() == old(self).fires_s(),
            old(self).status_s() is Running ==> final(self).elapsed_s() == advance_spec(
                old(self).elapsed_s(),
                i as int,
                old(self).total_s(),
            ),
            !(old(self).status_s() is Running) ==> *final(self) == *old(self),
            old(self).elapsed_s() <= final(self).elapsed_s(),
            cont == (old(self).status_s() is Running && final(self).elapsed_s() < final(self).total_s()),
    {
        match self.status {
            Status::Running => {
                let total = self.total_time();
                if i > self.elapsed {
                    if i <= total {
                        self.elapsed = i;
                    } else {
                        self.elapsed = total;
                    }
                }
                self.elapsed < total
            }
            _ => false,
        }
    }

    /// Whether the clock is currently running.
    pub fn is_running(&self) -> (b: bool)
        ensures
            b == (self.status_s() is Running),
    {
        match self.status {
            Status::Running => true,
            _ => false,
        }
    }

    /// Whole seconds elapsed so far.
    pub fn elapsed_time(&self) -> (e: i16)
        ensures
            e == self.elapsed_s(),
    {
        self.elapsed
    }
}

/// Law: at every observable instant the elapsed counter of a
/// well-formed clock sits between zero and the configured total, and
/// the total itself is positive.
pub proof fn lemma_elapsed_within_bounds<F: Fn()>(c: &SprintImpl<F>)
    requires
        c.inv(),
    ensures
        0 <= c.elapsed_s() <= c.total_s(),
        c.total_s() > 0,
{
}

/// Law: a freshly started clock reports zero percent completed, and its
/// remaining time is the whole configured duration.
pub proof fn lemma_fresh_clock_reports_zero<F: Fn()>(c: &SprintImpl<F>)
    requires
        c.inv(),
        c.elapsed_s() == 0,
    ensures
        percent_spec(c.elapsed_s(), c.total_s()) == 0,
        c.total_s() - c.elapsed_s() == c.total_s(),
{
}

} // verus!

//! The timer session: owns the one active sprint clock, replaces it when
//! a new interval is requested, and forwards commands and queries.
//!
//! The session is where at-most-once completion is pinned down: a fresh
//! clock is started exactly once, at its construction, so its callback
//! count can only move from zero to one, on the first progress query
//! that observes the running clock at one hundred percent.

use vstd::prelude::*;

use crate::sprint::Sprint;
use crate::sprint::SprintImpl;
use crate::sprint::SprintType;
use crate::sprint::Status;
use crate::sprint::advance_spec;
use crate::sprint::percent_spec;
use crate::sprint::total_spec;

verus! {

/// The verified interface of the timer session.
pub trait PomodoroTimer: Sized {
    /// Internal consistency, and the at-most-once completion guarantee:
    /// the active clock's callback has fired at most once, and a clock
    /// whose callback has fired stands stopped.
    spec fn inv(&self) -> bool;

    /// Whole seconds elapsed on the active clock.
    spec fn elapsed_s(&self) -> int;

    /// Lifecycle status of the active clock.
    spec fn status_s(&self) -> Status;

    /// Configured total duration of the active clock, whole seconds.
    spec fn total_s(&self) -> int;

    /// How many times the active clock's completion callback has fired.
    spec fn fires_s(&self) -> nat;

    /// Replace the active clock with a fresh, running work sprint.
    fn start_pomodoro(&mut self)
        requires
            old(self).inv(),
        ensures
            final(self).inv(),
            final(self).elapsed_s() == 0,
            final(self).status_s() is Running,
            final(self).total_s() == total_spec(SprintType::Pomodoro),
            final(self).fires_s() == 0,
    ;

    /// Replace the active clock with a fresh, running short break.
    fn start_short_interval(&mut self)
        requires
            old(self).inv(),
        ensures
            final(self).inv(),
            final(self).elapsed_s() == 0,
            final(self).status_s() is Running,
            final(self).total_s() == total_spec(SprintType::ShortBreak),
            final(self).fires_s() == 0,
    ;

    /// Replace the active clock with a fresh, running long break.
    fn start_long_interval(&mut self)
        requires
            old(self).inv(),
        ensures
            final(self).inv(),
            final(self).elapsed_s() == 0,
            final(self).status_s() is Running,
            final(self).total_s() == total_spec(SprintType::LongBreak),
            final(self).fires_s() == 0,
    ;

    /// Forward the pause toggle to the active clock.
    fn pause_toggle(&mut self)
        requires
            old(self).inv(),
        ensures
            final(self).inv(),
            final(self).elapsed_s() == old(self).elapsed_s(),
            final(self).total_s() == old(self).total_s(),
            final(self).fires_s() == old(self).fires_s(),
            final(self).status_s() == (match old(self).status_s() {
                Status::Running => Status::Paused,
                Status::Paused => Status::Running,
                Status::Stopped => Status::Stopped,
            }),
    ;

    /// Percent completed of the active clock.  The first call that
    /// observes the clock running at one hundred percent stops it and
    /// fires the completion callback; every later call leaves the
    /// callback count at one.
    fn load_progress(&mut self) -> (p: i8)
        requires
            old(self).inv(),
        ensures
            final(self).inv(),
            p == percent_spec(old(self).elapsed_s(), old(self).total_s()),
            0 <= p <= 100,
            final(self).elapsed_s() == old(self).elapsed_s(),
            final(self).total_s() == old(self).total_s(),
            final(self).fires_s() == old(self).fires_s() + (if old(self).status_s() is Running
                && percent_spec(old(self).elapsed_s(), old(self).total_s()) == 100 {
                1nat
            } else {
                0nat
            }),
            final(self).fires_s() <= 1,
            final(self).status_s() == (if old(self).status_s() is Running && percent_spec(
                old(self).elapsed_s(),
                old(self).total_s(),
            ) == 100 {
                Status::Stopped
            } else {
                old(self).status_s()
            }),
    ;

    /// Remaining whole seconds of the active clock.
    fn load_remaining_time(&self) -> (r: i16)
        requires
            self.inv(),
        ensures
            r + self.elapsed_s() == self.total_s(),
            r >= 0,
    ;
}

/// The session: exactly one active clock, plus the completion callback
/// handed to every clock it constructs.
pub struct PomodoroTimerImpl<F: Fn() + Copy> {
    active: SprintImpl<F>,
    notification: F,
}

impl<F: Fn() + Copy> PomodoroTimer for PomodoroTimerImpl<F> {
    closed spec fn inv(&self) -> bool {
        &&& self.active.inv()
        &&& call_requires(self.notification, ())
        &&& self.active.fires_s() <= 1
        &&& (self.active.fires_s() == 1 ==> self.active.status_s() is Stopped)
    }

    closed spec fn elapsed_s(&self) -> int {
        self.active.elapsed_s()
    }

    closed spec fn status_s(&self) -> Status {
        self.active.status_s()
    }

    closed spec fn total_s(&self) -> int {
        self.active.total_s()
    }

    closed spec fn fires_s(&self) -> nat {
        self.active.fires_s()
    }

    fn start_pomodoro(&mut self) {
        self.start(SprintType::Pomodoro);
    }

    fn start_short_interval(&mut self) {
        self.start(SprintType::ShortBreak);
    }

    fn start_long_interval(&mut self) {
        self.start(SprintType::LongBreak);
    }

    fn pause_toggle(&mut self) {
        self.active.pause_toggle();
    }

    fn load_progress(&mut self) -> (p: i8) {
        self.active.progress()
    }

    fn load_remaining_time(&self) -> (r: i16) {
        self.active.remaining()
    }
}

impl<F: Fn() + Copy> PomodoroTimerImpl<F> {
    /// A session whose clocks will all notify completion through `n`.
    /// It begins with a stopped work sprint as the active clock.
    pub fn new(n: F) -> (s: Self)
        requires
            call_requires(n, ()),
        ensures
            s.inv(),
            s.elapsed_s() == 0,
            s.status_s() is Stopped,
            s.total_s() == total_spec(SprintType::Pomodoro),
            s.fires_s() == 0,
    {
        Self { active: SprintImpl::new(SprintType::Pomodoro, n), notification: n }
    }

    /// Construct a fresh clock of kind `t`, start it, and make it the
    /// active one.  The superseded clock is dropped; its tick loop, if
    /// one is still alive, is the caller's to wind down.
    fn start(&mut self, t: SprintType)
        requires
            old(self).inv(),
        ensures
            final(self).inv(),
            final(self).elapsed_s() == 0,
            final(self).status_s() is Running,
            final(self).total_s() == total_spec(t),
            final(self).fires_s() == 0,
    {
        let mut sprint = SprintImpl::new(t, self.notification);
        sprint.start();
        self.active = sprint;
    }

    /// Forward one tick event with sequence index `i` to the active
    /// clock.  Returns whether the tick loop should go on.
    pub fn tick_active(&mut self, i: i16) -> (cont: bool)
        requires
            old(self).inv(),
        ensures
            final(self).inv(),
            final(self).status_s() == old(self).status_s(),
            final(self).total_s() == old(self).total_s(),
            final(self).fires_s() == old(self).fires_s(),
            old(self).status_s() is Running ==> final(self).elapsed_s() == advance_spec(
                old(self).elapsed_s(),
                i as int,
                old(self).total_s(),
            ),
            !(old(self).status_s() is Running) ==> final(self).elapsed_s() == old(self).elapsed_s(),
            old(self).elapsed_s() <= final(self).elapsed_s(),
            cont == (old(self).status_s() is Running && final(self).elapsed_s() < final(self).total_s()),
    {
        self.active.tick(i)
    }

    /// Whether the active clock is currently running.
    pub fn is_running(&self) -> (b: bool)
        ensures
            b == (self.status_s() is Running),
    {
        self.active.is_running()
    }

    /// Whole seconds elapsed on the active clock.
    pub fn load_elapsed_time(&self) -> (e: i16)
        ensures
            e == self.elapsed_s(),
    {
        self.active.elapsed_time()
    }
}

/// Law: the completion callback fires at most once per clock.  Once it
/// has fired, the active clock stands stopped, and a stopped clock is
/// never observed running at one hundred percent again, so no later
/// progress query fires the callback a second time.
pub proof fn lemma_completion_fires_at_most_once<F: Fn() + Copy>(s: &PomodoroTimerImpl<F>)
    requires
        s.inv(),
        s.fires_s() >= 1,
    ensures
        s.fires_s() == 1,
        s.status_s() is Stopped,
{
}

} // verus!

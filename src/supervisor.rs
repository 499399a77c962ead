//! The supervisor's state and its decision after each observed outcome of
//! the child process: restart, finish, give up, or fail.

use crate::clock::get_now;
use crate::policy::{
    allowed, check_history, expiry_fits, pruned, push_history, recorded, update_history,
};
use vstd::prelude::*;

verus! {

/// Length of the per-minute window, in seconds.
pub const SECONDS_IN_A_MINUTE: u16 = 60;

/// Length of the per-hour window, in seconds.
pub const SECONDS_IN_A_HOUR: u16 = 60 * 60;

/// The crash limit where neither a per-minute nor a per-hour limit is given.
pub const DEFAULT_MAX_RETRIES: u8 = 4;

/// The state of one supervision run: the command, its restart policy and
/// the expiry instants of its recent crashes.
pub struct Retry {
    /// The command line, split at whitespace when spawned.
    pub command: String,
    /// Expiry instants of the crashes that still count, in seconds since
    /// the Unix epoch.
    pub history: Vec<u64>,
    /// Restarts stop once this many crashes lie within the window.
    pub max_retries: u8,
    /// Length of the sliding window, in seconds.
    pub timespan: u16,
    /// Pause before each restart, in seconds.
    pub restart_delay: u8,
    /// The window's name in messages: "minute" or "hour".
    pub restart_name: String,
}

/// What the supervisor observed of the latest attempt to run the command.
pub enum Event {
    /// The command could not be started.
    SpawnFailed,
    /// The command was started but its exit status could not be observed.
    WaitFailed,
    /// The command exited successfully.
    Succeeded,
    /// The command exited with a failure, at `now` seconds since the Unix epoch.
    Crashed { now: u64 },
    /// The command exited with a failure, and the clock could not be read.
    ClockFailed,
}

/// What the supervisor does next.
#[derive(PartialEq, Eq, Structural, Debug, Clone, Copy)]
pub enum Action {
    /// Start the command again after `delay` seconds.
    Restart { delay: u8 },
    /// Stop: the command succeeded.
    Done,
    /// Stop: too many crashes within the window.
    GiveUp,
    /// Stop with a failure, the policy left untouched.
    Fail,
}

impl Retry {
    /// A policy that can ever allow a restart, over a window of some length.
    pub open spec fn wf(&self) -> bool {
        self.max_retries >= 1 && self.timespan >= 1
    }

    /// `self` and `other` hold the same command and settings.
    pub open spec fn same_settings(&self, other: &Retry) -> bool {
        &&& self.command == other.command
        &&& self.max_retries == other.max_retries
        &&& self.timespan == other.timespan
        &&& self.restart_delay == other.restart_delay
        &&& self.restart_name == other.restart_name
    }

    /// The state at startup, with an empty history. A positive `per_minute`
    /// sets a limit per minute; else a positive `per_hour` sets one per hour;
    /// else the limit is four crashes per minute. Zero means "not given".
    pub fn new(command: String, per_minute: u8, per_hour: u8, delay: u8) -> (r: Retry)
        ensures
            r.wf(),
            r.command == command,
            r.history@.len() == 0,
            r.restart_delay == delay,
            per_minute > 0 ==> {
                &&& r.max_retries == per_minute
                &&& r.timespan == SECONDS_IN_A_MINUTE
                &&& r.restart_name@ == "minute"@
            },
            per_minute == 0 && per_hour > 0 ==> {
                &&& r.max_retries == per_hour
                &&& r.timespan == SECONDS_IN_A_HOUR
                &&& r.restart_name@ == "hour"@
            },
            per_minute == 0 && per_hour == 0 ==> {
                &&& r.max_retries == DEFAULT_MAX_RETRIES
                &&& r.timespan == SECONDS_IN_A_MINUTE
                &&& r.restart_name@ == "minute"@
            },
    {
        let mut max_retries: u8 = DEFAULT_MAX_RETRIES;
        let mut timespan: u16 = SECONDS_IN_A_MINUTE;
        let mut restart_name = "minute".to_owned();
        if per_minute > 0 {
            max_retries = per_minute;
        } else if per_hour > 0 {
            max_retries = per_hour;
            timespan = SECONDS_IN_A_HOUR;
            restart_name = "hour".to_owned();
        }
        Retry {
            command,
            history: Vec::new(),
            max_retries,
            timespan,
            restart_delay: delay,
            restart_name,
        }
    }

    /// Handles the outcome of one run. A crash is recorded at its instant
    /// and the history pruned at that same instant before the limit is
    /// checked, so the crash counts toward the decision it causes. Nothing
    /// but a crash touches the history; a crash whose expiry instant a `u64`
    /// cannot hold is treated as an unreadable clock.
    pub fn step(&mut self, event: Event) -> (r: Action)
        ensures
            final(self).same_settings(old(self)),
            match event {
                Event::Crashed { now } => if expiry_fits(now, old(self).timespan) {
                    &&& final(self).history@ == pruned(
                        recorded(old(self).history@, now, old(self).timespan),
                        now,
                    )
                    &&& r == if allowed(final(self).history@.len(), old(self).max_retries) {
                        Action::Restart { delay: old(self).restart_delay }
                    } else {
                        Action::GiveUp
                    }
                } else {
                    *final(self) == *old(self) && r == Action::Fail
                },
                Event::Succeeded => *final(self) == *old(self) && r == Action::Done,
                _ => *final(self) == *old(self) && r == Action::Fail,
            },
    {
        match event {
            Event::Crashed { now } => {
                if now > u64::MAX - self.timespan as u64 {
                    return Action::Fail;
                }
                let mut history: Vec<u64> = Vec::new();
                core::mem::swap(&mut history, &mut self.history);
                let pushed = push_history(history, self.timespan, now);
                self.history = update_history(pushed, now);
                if check_history(&self.history, self.max_retries) {
                    Action::Restart { delay: self.restart_delay }
                } else {
                    Action::GiveUp
                }
            },
            Event::Succeeded => Action::Done,
            _ => Action::Fail,
        }
    }
}

/// The event for a failed exit observed now: a crash at the current time,
/// or `ClockFailed` where the clock cannot be read.
pub fn crash_event() -> (r: Event)
    ensures
        r is Crashed || r is ClockFailed,
{
    match get_now() {
        Some(now) => Event::Crashed { now },
        None => Event::ClockFailed,
    }
}

} // verus!

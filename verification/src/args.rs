//! The command line, and what an invocation is meant to do.

use vstd::prelude::*;

verus! {

/// What was given on the command line.
#[derive(Debug)]
pub struct Args {
    /// Amount of time (e.g., 10s, 5m, 1h)
    pub time: Option<String>,
    /// Specify terminal emulator
    pub terminal: Option<String>,
    /// Internal flag: this process is the countdown display itself
    pub ghost_mode: bool,
}

/// What an invocation is meant to do.
#[derive(Debug)]
pub enum Mode {
    /// Be the countdown display for the duration written in `time`.
    Display { time: String },
    /// Asked to be the countdown display, but given no duration: there is
    /// nothing to do.
    Idle,
    /// Open the timer window for the duration written in `time`, in the
    /// terminal emulator `terminal` if one is named.
    Launch { time: String, terminal: Option<String> },
    /// Let the user pick a duration first.
    Dashboard,
}

impl Args {
    /// Decides what this invocation is meant to do.
    ///
    /// The internal flag makes it the countdown display, which needs a
    /// duration to do anything. Without the flag a duration makes it the
    /// launcher, and no duration calls for the dashboard, for which a named
    /// terminal emulator plays no part.
    pub fn mode(self) -> (mode: Mode)
        ensures
            (match mode {
                Mode::Display { time } => self.ghost_mode && self.time == Some(time),
                Mode::Idle => self.ghost_mode && self.time is None,
                Mode::Launch { time, terminal } => !self.ghost_mode && self.time == Some(time)
                    && terminal == self.terminal,
                Mode::Dashboard => !self.ghost_mode && self.time is None,
            }),
    {
        if self.ghost_mode {
            match self.time {
                Some(time) => Mode::Display { time },
                None => Mode::Idle,
            }
        } else {
            match self.time {
                Some(time) => Mode::Launch { time, terminal: self.terminal },
                None => Mode::Dashboard,
            }
        }
    }
}

} // verus!

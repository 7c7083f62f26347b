//! The decision core of the background polling loop.
//!
//! The loop reads the device once per interval and keeps a consecutive
//! failure counter. A successful read resets the counter and publishes a
//! timestamped reading; a failed read increments it, and the third
//! consecutive failure is fatal — the device link is presumed permanently
//! lost, and the process must stop rather than run degraded. The loop itself
//! (device call, sleep, channel send) lives with the embedding application,
//! which feeds each read outcome through [`PollerState::on_read`] and
//! performs the returned action.
use crate::clicker_controller::MeasureResult;
use vstd::prelude::*;

verus! {

/// How many consecutive failed reads escalate to a fatal error.
pub const MAX_POLL_FAILURES: u32 = 3;

/// What the polling loop must do after one read attempt.
#[derive(Clone, Copy, Debug, PartialEq, Eq)]
pub enum PollAction {
    /// The read succeeded: publish this reading, overwriting the previous one.
    Publish(MeasureResult),
    /// The read failed but the threshold is not reached: log and try again
    /// after the poll interval.
    Retry,
    /// The threshold is reached: the device link is dead, stop the process.
    Fatal,
}

/// The failure counter the polling loop carries between iterations.
#[derive(Clone, Copy, Debug, PartialEq, Eq)]
pub struct PollerState {
    pub fails: u32,
}

impl PollerState {
    /// A fresh poller with no recorded failures.
    pub fn new() -> (r: Self)
        ensures
            r.fails == 0,
    {
        PollerState { fails: 0 }
    }

    /// Record the outcome of one read attempt, made at `timestamp`:
    /// `Some(reading)` for a successful read, `None` for a transient
    /// transport failure (a timeout counts as one). Returns the action the
    /// loop must take. Once `Fatal` is returned the loop must not continue,
    /// so a state that already reached the threshold cannot be stepped.
    pub fn on_read(
        &mut self,
        timestamp: i64,
        outcome: Option<crate::clicker_interface::MeasureResult>,
    ) -> (r: PollAction)
        requires
            old(self).fails < MAX_POLL_FAILURES,
        ensures
            match outcome {
                Some(reading) => final(self).fails == 0 && r == PollAction::Publish(
                    MeasureResult { timestamp, result: reading },
                ),
                None => {
                    &&& final(self).fails == old(self).fails + 1
                    &&& (r is Fatal <==> final(self).fails == MAX_POLL_FAILURES)
                    &&& (r is Retry <==> final(self).fails < MAX_POLL_FAILURES)
                },
            },
    {
        match outcome {
            Some(reading) => {
                self.fails = 0;
                PollAction::Publish(MeasureResult { timestamp, result: reading })
            },
            None => {
                self.fails = self.fails + 1;
                if self.fails >= MAX_POLL_FAILURES {
                    PollAction::Fatal
                } else {
                    PollAction::Retry
                }
            },
        }
    }
}

} // verus!

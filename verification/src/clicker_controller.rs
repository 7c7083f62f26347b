//! The controller that owns the measurement process.
//!
//! It tracks the state last published by the active session (if any) and
//! enforces the invariant that at most one session runs at a time: starting
//! a new session while the current one is still `Idle` or `Running` is
//! rejected without touching anything. The channels, tasks and timers that
//! carry readings and statuses live with the embedding application; it
//! reports every published session state back through [`ClickerController::note_status`].
use crate::box_plot::{samples_ok, spec_box_plot, BoxPlot, MAX_SAMPLES};
use crate::measure::{spec_new_session, MeasureSession};
use vstd::prelude::*;

verus! {

/// The lifecycle state of one measurement session.
#[derive(Clone, Copy, Debug, PartialEq, Eq)]
pub enum MeasureProcessState {
    Idle,
    Running,
    Interrupted,
    Finished,
}

/// One timestamped reading as published by the polling loop. Only the most
/// recent one is retained by the broadcast cell; a slow subscriber skips
/// intermediate values and always observes the latest.
#[derive(Clone, Copy, Debug, PartialEq, Eq)]
pub struct MeasureResult {
    pub timestamp: i64,
    pub result: crate::clicker_interface::MeasureResult,
}

/// A progress report of the measurement session: the samples accumulated so
/// far in each mode, and box-plot statistics over each non-empty batch.
#[derive(Clone, Debug, PartialEq, Eq)]
pub struct MeasureProcessStat {
    pub timestamp: i64,
    pub state: MeasureProcessState,
    pub freqs: Vec<i64>,
    pub rks: Vec<i64>,
    pub freqs_avg: Option<BoxPlot>,
    pub rks_avg: Option<BoxPlot>,
}

impl MeasureProcessStat {
    /// The report a session's status channel starts with, before any sample
    /// was accepted.
    pub fn idle(timestamp: i64) -> (r: Self)
        ensures
            r.timestamp == timestamp,
            r.state is Idle,
            r.freqs@ == Seq::<i64>::empty(),
            r.rks@ == Seq::<i64>::empty(),
            r.freqs_avg is None,
            r.rks_avg is None,
    {
        MeasureProcessStat {
            timestamp,
            state: MeasureProcessState::Idle,
            freqs: Vec::new(),
            rks: Vec::new(),
            freqs_avg: None,
            rks_avg: None,
        }
    }

    /// A report over the given sample batches: statistics are recomputed
    /// from scratch over each non-empty batch.
    pub fn from_samples(
        timestamp: i64,
        state: MeasureProcessState,
        freqs: &Vec<i64>,
        rks: &Vec<i64>,
    ) -> (r: Self)
        requires
            samples_ok(freqs@),
            samples_ok(rks@),
            freqs@.len() <= MAX_SAMPLES,
            rks@.len() <= MAX_SAMPLES,
        ensures
            r.timestamp == timestamp,
            r.state == state,
            r.freqs@ == freqs@,
            r.rks@ == rks@,
            r.freqs_avg == (if freqs@.len() == 0 {
                Option::<BoxPlot>::None
            } else {
                Option::<BoxPlot>::Some(spec_box_plot(freqs@))
            }),
            r.rks_avg == (if rks@.len() == 0 {
                Option::<BoxPlot>::None
            } else {
                Option::<BoxPlot>::Some(spec_box_plot(rks@))
            }),
    {
        let freqs_avg = if freqs.len() == 0 {
            None
        } else {
            Some(BoxPlot::new(freqs))
        };
        let rks_avg = if rks.len() == 0 {
            None
        } else {
            Some(BoxPlot::new(rks))
        };
        MeasureProcessStat {
            timestamp,
            state,
            freqs: copy_samples(freqs),
            rks: copy_samples(rks),
            freqs_avg,
            rks_avg,
        }
    }
}

/// An element-for-element copy of a sample batch.
fn copy_samples(v: &Vec<i64>) -> (r: Vec<i64>)
    ensures
        r@ == v@,
{
    let mut r: Vec<i64> = Vec::new();
    let n = v.len();
    for i in 0..n
        invariant
            n == v@.len(),
            r@ == v@.subrange(0, i as int),
    {
        r.push(v[i]);
        proof {
            assert(v@.subrange(0, i as int).push(v@[i as int]) =~= v@.subrange(0, i + 1 as int));
        }
    }
    proof {
        assert(v@.subrange(0, n as int) =~= v@);
    }
    r
}

/// Owner of the measurement process: remembers the state the active session
/// last published, and refuses to start a second session beside a live one.
pub struct ClickerController {
    pub switch_cycles: u32,
    pub mc_state: Option<MeasureProcessState>,
}

impl ClickerController {
    pub open spec fn wf(&self) -> bool {
        self.switch_cycles >= 1
    }

    /// A controller with no session yet; `switch_cycles` is how many full
    /// Rk/Freq round trips each session runs for.
    pub fn new(switch_cycles: u32) -> (r: Self)
        requires
            switch_cycles >= 1,
        ensures
            r.switch_cycles == switch_cycles,
            r.mc_state is None,
            r.wf(),
    {
        ClickerController { switch_cycles, mc_state: None }
    }

    /// Start a new measurement session. Fails — changing nothing — while the
    /// current session is still `Idle` or `Running`; otherwise hands the
    /// caller a fresh session to drive, and records that its status channel
    /// starts at `Idle`.
    pub fn start_mesure(&mut self) -> (r: Result<MeasureSession, &'static str>)
        requires
            old(self).wf(),
        ensures
            final(self).wf(),
            final(self).switch_cycles == old(self).switch_cycles,
            match old(self).mc_state {
                Some(st) => {
                    if st is Running || st is Idle {
                        r is Err && *final(self) == *old(self)
                    } else {
                        r matches Ok(s) && s@ == spec_new_session(old(self).switch_cycles as nat)
                            && s.wf() && final(self).mc_state == Some(MeasureProcessState::Idle)
                    }
                },
                None => r matches Ok(s) && s@ == spec_new_session(old(self).switch_cycles as nat)
                    && s.wf() && final(self).mc_state == Some(MeasureProcessState::Idle),
            },
    {
        match &self.mc_state {
            Some(st) => {
                match st {
                    MeasureProcessState::Running | MeasureProcessState::Idle => {
                        return Err("a measurement session is already running");
                    },
                    _ => {},
                }
            },
            None => {},
        }
        self.mc_state = Some(MeasureProcessState::Idle);
        Ok(MeasureSession::new(self.switch_cycles))
    }

    /// Record a state the active session just published on its status
    /// channel; keeps the controller's view of the session current.
    pub fn note_status(&mut self, state: MeasureProcessState)
        requires
            old(self).mc_state is Some,
        ensures
            final(self).mc_state == Some(state),
            final(self).switch_cycles == old(self).switch_cycles,
    {
        self.mc_state = Some(state);
    }

    /// Drop the handle on the current session's status. The caller signals
    /// cancellation and awaits the session task before relying on it being
    /// gone; afterwards a new session may start.
    pub fn interrupt_mesure(&mut self)
        ensures
            final(self).mc_state is None,
            final(self).switch_cycles == old(self).switch_cycles,
    {
        self.mc_state = None;
    }

    /// The state the active session last published, if one is active.
    pub fn measure_status(&self) -> (r: Option<MeasureProcessState>)
        ensures
            r == self.mc_state,
    {
        self.mc_state
    }
}

} // verus!

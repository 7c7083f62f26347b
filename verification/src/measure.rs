//! The measurement-session state machine.
//!
//! A session consumes the stream of device readings. The first observed
//! reading only establishes which mode the device is currently in (the
//! warm-up sample: it is discarded, and no switch is counted for it).
//! Afterwards every reading whose mode differs from the previous one counts
//! as one switch; readings before the first switch are still warm-up and are
//! discarded. Every accepted reading is appended to the batch of its mode,
//! statistics are recomputed, and a progress report is produced. The session
//! finishes exactly when the switch counter reaches twice the configured
//! cycle count (one cycle is a full Rk→Freq→Rk round trip), and can be
//! interrupted at any earlier point by cancellation or by the reading source
//! going away. Once finished or interrupted it accepts no further events.
//!
//! The waiting itself — racing the next reading against the cancellation
//! signal — lives with the embedding application, which feeds whichever
//! event won into this state machine and publishes the returned report.
use crate::box_plot::{sample_ok, samples_ok, MAX_SAMPLES};
use crate::clicker_controller::{MeasureProcessStat, MeasureProcessState};
use crate::clicker_interface::MeasureResult;
use vstd::prelude::*;

verus! {

/// The spec-level image of a session.
pub struct SessionView {
    /// Configured number of full switch cycles.
    pub cycles: nat,
    /// Frequency samples accepted so far.
    pub freqs: Seq<i64>,
    /// Dynamic-resistance samples accepted so far.
    pub rks: Seq<i64>,
    /// Mode switches observed so far.
    pub switches: nat,
    /// Mode of the most recent observed reading (true: frequency).
    pub prev_freq: bool,
    /// Whether the warm-up sample has established the mode baseline.
    pub baseline: bool,
    /// Whether the session is over (finished or interrupted).
    pub done: bool,
}

/// The image of a session that has observed nothing yet.
pub open spec fn spec_new_session(cycles: nat) -> SessionView {
    SessionView {
        cycles,
        freqs: Seq::empty(),
        rks: Seq::empty(),
        switches: 0,
        prev_freq: false,
        baseline: false,
        done: false,
    }
}

/// Internal consistency of a session: sample batches stay bounded so the
/// statistics arithmetic cannot overflow, and the switch counter never
/// passes the finish line.
pub open spec fn session_inv(s: SessionView) -> bool {
    &&& s.cycles >= 1
    &&& samples_ok(s.freqs)
    &&& samples_ok(s.rks)
    &&& s.freqs.len() + s.rks.len() <= MAX_SAMPLES
    &&& s.switches <= 2 * s.cycles
    &&& (!s.done ==> s.switches < 2 * s.cycles)
}

/// The sample value appended to its mode's batch.
pub open spec fn spec_accumulate(s: SessionView, is_freq: bool, value: i64) -> SessionView {
    if is_freq {
        SessionView { freqs: s.freqs.push(value), ..s }
    } else {
        SessionView { rks: s.rks.push(value), ..s }
    }
}

/// The session state after observing one reading.
pub open spec fn spec_step_reading(s: SessionView, is_freq: bool, value: i64) -> SessionView
    recommends
        !s.done,
{
    if !s.baseline {
        // Warm-up: the first observed reading establishes the baseline
        // without counting a switch, and its sample is discarded.
        SessionView { baseline: true, prev_freq: is_freq, ..s }
    } else if s.prev_freq != is_freq {
        let acc = spec_accumulate(
            SessionView { switches: s.switches + 1, prev_freq: is_freq, ..s },
            is_freq,
            value,
        );
        SessionView { done: acc.switches >= 2 * acc.cycles, ..acc }
    } else if s.switches == 0 {
        // Still warm-up: mode alignment is not confirmed until the first
        // switch, so the sample is discarded.
        s
    } else {
        let acc = spec_accumulate(s, is_freq, value);
        SessionView { done: acc.switches >= 2 * acc.cycles, ..acc }
    }
}

/// Whether observing a reading produces a progress report (warm-up readings
/// produce none).
pub open spec fn spec_step_publishes(s: SessionView, is_freq: bool) -> bool
    recommends
        !s.done,
{
    s.baseline && (s.prev_freq != is_freq || s.switches > 0)
}

/// What a published report must hold for a session image at a timestamp.
pub open spec fn stat_matches(stat: MeasureProcessStat, s: SessionView, timestamp: i64, state: MeasureProcessState) -> bool {
    &&& stat.timestamp == timestamp
    &&& stat.state == state
    &&& stat.freqs@ == s.freqs
    &&& stat.rks@ == s.rks
    &&& stat.freqs_avg == (if s.freqs.len() == 0 {
        Option::<crate::box_plot::BoxPlot>::None
    } else {
        Option::<crate::box_plot::BoxPlot>::Some(crate::box_plot::spec_box_plot(s.freqs))
    })
    &&& stat.rks_avg == (if s.rks.len() == 0 {
        Option::<crate::box_plot::BoxPlot>::None
    } else {
        Option::<crate::box_plot::BoxPlot>::Some(crate::box_plot::spec_box_plot(s.rks))
    })
}

/// One measurement session. Exclusively owned by the task that drives it;
/// nothing mutates it from outside.
pub struct MeasureSession {
    switch_cycles: u32,
    freqs: Vec<i64>,
    rks: Vec<i64>,
    switches: u64,
    prev_mode_freq: bool,
    have_baseline: bool,
    done: bool,
}

impl View for MeasureSession {
    type V = SessionView;

    closed spec fn view(&self) -> SessionView {
        SessionView {
            cycles: self.switch_cycles as nat,
            freqs: self.freqs@,
            rks: self.rks@,
            switches: self.switches as nat,
            prev_freq: self.prev_mode_freq,
            baseline: self.have_baseline,
            done: self.done,
        }
    }
}

impl MeasureSession {
    pub open spec fn wf(&self) -> bool {
        session_inv(self@)
    }

    /// A fresh session that will run for `switch_cycles` full switch cycles.
    pub fn new(switch_cycles: u32) -> (r: Self)
        requires
            switch_cycles >= 1,
        ensures
            r@ == spec_new_session(switch_cycles as nat),
            r.wf(),
    {
        MeasureSession {
            switch_cycles,
            freqs: Vec::new(),
            rks: Vec::new(),
            switches: 0,
            prev_mode_freq: false,
            have_baseline: false,
            done: false,
        }
    }

    /// Whether the session is over and accepts no further events.
    pub fn is_done(&self) -> (r: bool)
        ensures
            r == self@.done,
    {
        self.done
    }

    /// How many samples the session holds; the embedding application checks
    /// this against [`MAX_SAMPLES`] before feeding another reading.
    pub fn sample_count(&self) -> (r: usize)
        requires
            self.wf(),
        ensures
            r == self@.freqs.len() + self@.rks.len(),
    {
        self.freqs.len() + self.rks.len()
    }

    /// Observe one reading, taken at `timestamp`. Returns the progress
    /// report to publish, or `None` for a discarded warm-up reading. The
    /// report carries state `Finished` exactly when this reading completed
    /// the configured number of switch cycles; the session is then done.
    pub fn on_reading(&mut self, timestamp: i64, reading: MeasureResult) -> (r: Option<
        MeasureProcessStat,
    >)
        requires
            old(self).wf(),
            !old(self)@.done,
            sample_ok(reading.spec_value()),
            old(self)@.freqs.len() + old(self)@.rks.len() < MAX_SAMPLES,
        ensures
            final(self).wf(),
            final(self)@ == spec_step_reading(
                old(self)@,
                reading.spec_is_freq(),
                reading.spec_value(),
            ),
            r is Some <==> spec_step_publishes(old(self)@, reading.spec_is_freq()),
            r matches Some(stat) ==> stat_matches(
                stat,
                final(self)@,
                timestamp,
                if final(self)@.done {
                    MeasureProcessState::Finished
                } else {
                    MeasureProcessState::Running
                },
            ),
    {
        let is_freq = reading.is_freq();
        let value = reading.value();
        if !self.have_baseline {
            self.have_baseline = true;
            self.prev_mode_freq = is_freq;
            return None;
        }
        if self.prev_mode_freq != is_freq {
            self.switches = self.switches + 1;
            self.prev_mode_freq = is_freq;
        } else if self.switches == 0 {
            return None;
        }
        if is_freq {
            self.freqs.push(value);
        } else {
            self.rks.push(value);
        }
        if self.switches >= 2 * (self.switch_cycles as u64) {
            self.done = true;
        }
        let state = if self.done {
            MeasureProcessState::Finished
        } else {
            MeasureProcessState::Running
        };
        Some(MeasureProcessStat::from_samples(timestamp, state, &self.freqs, &self.rks))
    }

    /// End the session early: a cancellation signal arrived, or the reading
    /// source was torn down. Returns the final report, carrying whatever
    /// samples were accumulated, with state `Interrupted`. The session is
    /// then done, so no later report can follow this one.
    pub fn on_interrupt(&mut self, timestamp: i64) -> (r: MeasureProcessStat)
        requires
            old(self).wf(),
            !old(self)@.done,
        ensures
            final(self).wf(),
            final(self)@ == (SessionView { done: true, ..old(self)@ }),
            stat_matches(r, final(self)@, timestamp, MeasureProcessState::Interrupted),
    {
        self.done = true;
        MeasureProcessStat::from_samples(
            timestamp,
            MeasureProcessState::Interrupted,
            &self.freqs,
            &self.rks,
        )
    }
}

/// The mode tag of the `i`-th element of a stream that alternates every
/// element, starting from `first_freq`.
pub open spec fn alt_tag(first_freq: bool, i: nat) -> bool {
    if i % 2 == 0 {
        first_freq
    } else {
        !first_freq
    }
}

/// The image of a fresh session after observing the first `n` readings of
/// an alternating stream with values `vals`.
pub open spec fn run_alternating(cycles: nat, first_freq: bool, vals: Seq<i64>, n: nat) -> SessionView
    recommends
        n <= vals.len(),
    decreases n,
{
    if n == 0 {
        spec_new_session(cycles)
    } else {
        spec_step_reading(
            run_alternating(cycles, first_freq, vals, (n - 1) as nat),
            alt_tag(first_freq, (n - 1) as nat),
            vals[n - 1],
        )
    }
}

/// Law: fed a stream whose mode tag alternates on every element, a session
/// configured for `cycles` switch cycles treats the first reading as
/// warm-up, counts one switch per following reading, and is finished exactly
/// after `2 * cycles` switches — never before.
pub proof fn lemma_alternating_session_terminates(
    cycles: nat,
    first_freq: bool,
    vals: Seq<i64>,
    n: nat,
)
    requires
        cycles >= 1,
        1 <= n <= 2 * cycles + 1,
        n <= vals.len(),
    ensures
        run_alternating(cycles, first_freq, vals, n).cycles == cycles,
        run_alternating(cycles, first_freq, vals, n).baseline,
        run_alternating(cycles, first_freq, vals, n).switches == n - 1,
        run_alternating(cycles, first_freq, vals, n).prev_freq == alt_tag(
            first_freq,
            (n - 1) as nat,
        ),
        run_alternating(cycles, first_freq, vals, n).done <==> n == 2 * cycles + 1,
    decreases n,
{
    if n == 1 {
    } else {
        lemma_alternating_session_terminates(cycles, first_freq, vals, (n - 1) as nat);
        assert(alt_tag(first_freq, (n - 2) as nat) != alt_tag(first_freq, (n - 1) as nat));
    }
}

} // verus!

//! The health of link-event sources: demotion after a failed probe, and readmission
//! with growing pauses.
//!
//! Pauses are in seconds; instants are milliseconds of a clock that only moves forward.

use crate::network::source::{error_text, LinkSourceError};
use vstd::prelude::*;

verus! {

/// The pause between two probes of a healthy source, in seconds.
pub const DEFAULT_PROBE_INTERVAL: u64 = 60;

/// The longest pause, in seconds: six hours.
pub const BACKOFF_CAP: u64 = 21600;

/// The pauses before another probe, in seconds, by the number of failures.
pub open spec fn backoff_schedule() -> Seq<int> {
    seq![30, 60, 120, 300, 900, 3600, 21600]
}

/// The pause after a number of failures; past the schedule, its last entry.
pub open spec fn backoff(failure_count: nat) -> int {
    if failure_count < backoff_schedule().len() {
        backoff_schedule()[failure_count as int]
    } else {
        backoff_schedule().last()
    }
}

/// The pause after a number of failures, in seconds.
pub fn backoff_for(failure_count: u32) -> (r: u64)
    ensures
        r == backoff(failure_count as nat),
        0 < r <= BACKOFF_CAP,
{
    match failure_count {
        0 => 30,
        1 => 60,
        2 => 120,
        3 => 300,
        4 => 900,
        5 => 3600,
        _ => 21600,
    }
}

/// More failures never make the pause shorter, and it never exceeds six hours.
pub proof fn backoff_grows_to_its_cap(a: nat, b: nat)
    requires
        a <= b,
    ensures
        30 <= backoff(a) <= backoff(b) <= BACKOFF_CAP,
        a >= 6 ==> backoff(a) == BACKOFF_CAP,
{
    let s = backoff_schedule();
    assert(s[0] == 30 && s[1] == 60 && s[2] == 120 && s[3] == 300 && s[4] == 900 && s[5] == 3600 && s[6] == 21600);
}

/// Whether a source is listened to.
#[derive(Debug, Clone, PartialEq, Eq)]
pub enum SourceAdmissionState {
    /// The source is healthy.
    Admitted,
    /// The source failed a probe and is not listened to.
    Demoted {
        /// Why the last probe failed.
        reason: String,
        /// How many probes failed in a row.
        failure_count: u32,
        /// The instant from which the next probe is due.
        next_attempt_at: u64,
    },
}

/// [`SourceAdmissionState`] over mathematical values.
#[verifier::ext_equal]
pub enum AdmissionView {
    Admitted,
    Demoted { reason: Seq<char>, failure_count: u32, next_attempt_at: u64 },
}

impl View for SourceAdmissionState {
    type V = AdmissionView;

    open spec fn view(&self) -> AdmissionView {
        match self {
            SourceAdmissionState::Admitted => AdmissionView::Admitted,
            SourceAdmissionState::Demoted { reason, failure_count, next_attempt_at } => AdmissionView::Demoted {
                reason: reason@,
                failure_count: *failure_count,
                next_attempt_at: *next_attempt_at,
            },
        }
    }
}

impl Default for SourceAdmissionState {
    fn default() -> (r: Self)
        ensures
            r@ == AdmissionView::Admitted,
    {
        SourceAdmissionState::Admitted
    }
}

impl AdmissionView {
    /// The number of failures in a row.
    pub open spec fn failures(self) -> u32 {
        match self {
            AdmissionView::Admitted => 0,
            AdmissionView::Demoted { failure_count, .. } => failure_count,
        }
    }

    /// Whether a probe is due.
    pub open spec fn due(self, now: u64) -> bool {
        self matches AdmissionView::Demoted { next_attempt_at, .. } && now >= next_attempt_at
    }
}

impl SourceAdmissionState {
    /// Whether the source is listened to.
    pub fn is_admitted(&self) -> (r: bool)
        ensures
            r == (self@ is Admitted),
    {
        match self {
            SourceAdmissionState::Admitted => true,
            _ => false,
        }
    }

    /// Whether another probe of a demoted source is due.
    pub fn reprobe_due(&self, now: u64) -> (r: bool)
        ensures
            r == self@.due(now),
    {
        match self {
            SourceAdmissionState::Admitted => false,
            SourceAdmissionState::Demoted { next_attempt_at, .. } => now >= *next_attempt_at,
        }
    }

    /// The number of failures in a row, 0 for a healthy source.
    pub fn failure_count(&self) -> (r: u32)
        ensures
            r == self@.failures(),
    {
        match self {
            SourceAdmissionState::Admitted => 0,
            SourceAdmissionState::Demoted { failure_count, .. } => *failure_count,
        }
    }
}

/// What a probe changed.
#[derive(Debug, Clone, PartialEq, Eq)]
pub enum ProbeOutcome {
    /// The source was and is healthy.
    StillAdmitted,
    /// The source failed its first probe.
    Demoted {
        /// Why.
        reason: String,
    },
    /// The source failed again.
    StillDemoted {
        /// The number of failures in a row.
        new_failure_count: u32,
        /// Why.
        reason: String,
    },
    /// The source is healthy again.
    Readmitted,
}

/// [`ProbeOutcome`] over mathematical values.
#[verifier::ext_equal]
pub enum OutcomeView {
    StillAdmitted,
    Demoted { reason: Seq<char> },
    StillDemoted { new_failure_count: u32, reason: Seq<char> },
    Readmitted,
}

impl View for ProbeOutcome {
    type V = OutcomeView;

    open spec fn view(&self) -> OutcomeView {
        match self {
            ProbeOutcome::StillAdmitted => OutcomeView::StillAdmitted,
            ProbeOutcome::Demoted { reason } => OutcomeView::Demoted { reason: reason@ },
            ProbeOutcome::StillDemoted { new_failure_count, reason } => OutcomeView::StillDemoted {
                new_failure_count: *new_failure_count,
                reason: reason@,
            },
            ProbeOutcome::Readmitted => OutcomeView::Readmitted,
        }
    }
}

/// The state after a probe at the instant `now`, and what changed.
///
/// The first failure is followed by the first pause of the schedule; the pause after
/// the `n`-th failure in a row, from the second on, is that of the count `n`.
pub open spec fn probed(current: AdmissionView, probe: Result<(), Seq<char>>, now: u64) -> (AdmissionView, OutcomeView) {
    match (current, probe) {
        (AdmissionView::Admitted, Ok(_)) => (AdmissionView::Admitted, OutcomeView::StillAdmitted),
        (AdmissionView::Admitted, Err(reason)) => (
            AdmissionView::Demoted {
                reason,
                failure_count: 1,
                next_attempt_at: (now + 1000 * backoff(0)) as u64,
            },
            OutcomeView::Demoted { reason },
        ),
        (AdmissionView::Demoted { .. }, Ok(_)) => (AdmissionView::Admitted, OutcomeView::Readmitted),
        (AdmissionView::Demoted { failure_count, .. }, Err(reason)) => {
            let count = if failure_count == u32::MAX {
                u32::MAX
            } else {
                (failure_count + 1) as u32
            };
            (
                AdmissionView::Demoted {
                    reason,
                    failure_count: count,
                    next_attempt_at: (now + 1000 * backoff(count as nat)) as u64,
                },
                OutcomeView::StillDemoted { new_failure_count: count, reason },
            )
        },
    }
}

/// The view of a probe's report.
pub open spec fn probe_view(p: Result<(), LinkSourceError>) -> Result<(), Seq<char>> {
    match p {
        Ok(_) => Ok(()),
        Err(e) => Err(error_text(e)),
    }
}

/// Takes a probe's report into account, as [`probed`] says.
pub fn apply_probe_result(current: &SourceAdmissionState, probe: Result<(), LinkSourceError>, now: u64) -> (r: (
    SourceAdmissionState,
    ProbeOutcome,
))
    requires
        now + 1000 * BACKOFF_CAP <= u64::MAX,
    ensures
        (r.0@, r.1@) == probed(current@, probe_view(probe), now),
{
    match current {
        SourceAdmissionState::Admitted => match probe {
            Ok(_) => (SourceAdmissionState::Admitted, ProbeOutcome::StillAdmitted),
            Err(err) => {
                let reason = err.to_text();
                let next = SourceAdmissionState::Demoted {
                    reason: reason.clone(),
                    failure_count: 1,
                    next_attempt_at: now + 1000 * backoff_for(0),
                };
                (next, ProbeOutcome::Demoted { reason })
            },
        },
        SourceAdmissionState::Demoted { failure_count, .. } => match probe {
            Ok(_) => (SourceAdmissionState::Admitted, ProbeOutcome::Readmitted),
            Err(err) => {
                let reason = err.to_text();
                let new_failure_count: u32 = failure_count.saturating_add(1);
                let next = SourceAdmissionState::Demoted {
                    reason: reason.clone(),
                    failure_count: new_failure_count,
                    next_attempt_at: now + 1000 * backoff_for(new_failure_count),
                };
                (next, ProbeOutcome::StillDemoted { new_failure_count, reason })
            },
        },
    }
}

/// A successful probe admits the source from any state, a failed one demotes it from
/// any state, and no probe of a source that was just demoted is due before its pause is
/// over.
pub proof fn probes_decide_admission(current: AdmissionView, probe: Result<(), Seq<char>>, now: u64, later: u64)
    requires
        now + 1000 * BACKOFF_CAP <= u64::MAX,
    ensures
        probe is Ok <==> probed(current, probe, now).0 is Admitted,
        probe is Err ==> probed(current, probe, now).0.failures() > 0,
        later < now + 30_000 ==> !probed(current, probe, now).0.due(later),
        later >= now + 1000 * BACKOFF_CAP && probe is Err ==> probed(current, probe, now).0.due(later),
{
    backoff_grows_to_its_cap(0, 0);
    if let AdmissionView::Demoted { failure_count, .. } = current {
        if failure_count < u32::MAX {
            backoff_grows_to_its_cap((failure_count + 1) as nat, (failure_count + 1) as nat);
        } else {
            backoff_grows_to_its_cap(failure_count as nat, failure_count as nat);
        }
    }
}

/// The state after a number of failed probes, one after another, each at its instant.
pub open spec fn after_failures(start: AdmissionView, reasons: Seq<Seq<char>>, times: Seq<u64>) -> AdmissionView
    decreases reasons.len(),
{
    if reasons.len() == 0 {
        start
    } else {
        probed(
            after_failures(start, reasons.drop_last(), times),
            Err(reasons.last()),
            times[reasons.len() - 1],
        ).0
    }
}

/// From a healthy source on, the count of failures is the number of failed probes.
pub proof fn failures_are_counted(reasons: Seq<Seq<char>>, times: Seq<u64>)
    requires
        reasons.len() <= u32::MAX,
    ensures
        after_failures(AdmissionView::Admitted, reasons, times).failures() == reasons.len(),
        reasons.len() > 0 ==> after_failures(AdmissionView::Admitted, reasons, times) is Demoted,
    decreases reasons.len(),
{
    if reasons.len() > 0 {
        failures_are_counted(reasons.drop_last(), times);
    }
}

/// A source that fails waits from the failure on: half a minute after the first, and
/// then one, two, five and fifteen minutes, an hour, and at last six hours, for each
/// failure in a row. A source that answers is admitted again at once.
pub proof fn failures_wait_longer_each_time(
    count: u32,
    was: Seq<char>,
    at: u64,
    reason: Seq<char>,
    now: u64,
    later: u64,
)
    requires
        count < u32::MAX,
        now + 1000 * BACKOFF_CAP <= u64::MAX,
    ensures
        probed(AdmissionView::Admitted, Err(reason), now).0.due(later) <==> later >= now + 30_000,
        probed(AdmissionView::Admitted, Err(reason), now).1 == (OutcomeView::Demoted { reason }),
        probed(AdmissionView::Admitted, Ok(()), now).1 == OutcomeView::StillAdmitted,
        ({
            let demoted = AdmissionView::Demoted { reason: was, failure_count: count, next_attempt_at: at };
            let (next, outcome) = probed(demoted, Err(reason), now);
            &&& probed(demoted, Ok(()), now) == (AdmissionView::Admitted, OutcomeView::Readmitted)
            &&& next matches AdmissionView::Demoted { reason: r, failure_count: n, .. } && r == reason && n == count + 1
            &&& outcome matches OutcomeView::StillDemoted { new_failure_count: n, reason: r } && n == count + 1 && r
                == reason
            &&& count == 0 ==> (next.due(later) <==> later >= now + 60_000)
            &&& count == 1 ==> (next.due(later) <==> later >= now + 120_000)
            &&& count == 2 ==> (next.due(later) <==> later >= now + 300_000)
            &&& count == 3 ==> (next.due(later) <==> later >= now + 900_000)
            &&& count == 4 ==> (next.due(later) <==> later >= now + 3_600_000)
            &&& count >= 5 ==> (next.due(later) <==> later >= now + 21_600_000)
        }),
{
}

} // verus!

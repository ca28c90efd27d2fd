//! The tiered resolver: on every poll the sources are consulted in a fixed
//! order, and the first one that answers serves the poll.
//!
//! The resolver keeps no state of its own. It never fails: where no source
//! answers, the snapshot has no readings and says why.

use vstd::prelude::*;
use crate::board::lemma_fan_speeds_turn;
use crate::model::{lemma_present_fans_turn, HardwareData, HardwareView};
use crate::payload::{daemon_snapshot, snapshot_from_daemon, LhmResponse, LhmResponseView};
use crate::structured::{get_hardware_from_wmi, wmi_snapshot, WmiSession};

verus! {

/// One ranked source of readings.
#[derive(Clone, Copy, Debug, PartialEq, Eq, Structural)]
pub enum Tier {
    /// The supervised helper daemon.
    Daemon,
    /// One run of the helper without streaming.
    OneShot,
    /// The structured operating-system queries.
    Structured,
}

/// How one run of the helper without streaming ended.
#[derive(Clone, Debug, PartialEq, Eq)]
pub struct OneShotRun {
    /// Whether the helper exited with code zero.
    pub exit_success: bool,
    /// The document that its whole standard output parsed to, if it did.
    pub document: Option<LhmResponse>,
}

/// What the resolver has decided after a tier was consulted.
#[derive(Clone, Debug, PartialEq, Eq)]
pub enum Resolution {
    /// The poll is served.
    Resolved(HardwareData),
    /// The tier did not answer: consult this one next.
    Consult(Tier),
}

pub enum ResolutionView {
    Resolved(HardwareView),
    Consult(Tier),
}

impl View for Resolution {
    type V = ResolutionView;

    open spec fn view(&self) -> ResolutionView {
        match self {
            Resolution::Resolved(snapshot) => ResolutionView::Resolved(snapshot@),
            Resolution::Consult(tier) => ResolutionView::Consult(*tier),
        }
    }
}

/// The tier that is consulted after `tier`; none after the last.
pub open spec fn tier_after(tier: Tier) -> Option<Tier> {
    match tier {
        Tier::Daemon => Some(Tier::OneShot),
        Tier::OneShot => Some(Tier::Structured),
        Tier::Structured => None,
    }
}

/// The payload that a one-shot run yields: the run must have exited with
/// code zero and its output must have parsed.
pub open spec fn one_shot_payload(run: OneShotRun) -> Option<LhmResponseView> {
    if run.exit_success {
        run.document.deep_view()
    } else {
        None
    }
}

/// The decision after a tier that answers with a payload, or not at all,
/// was consulted.
pub open spec fn payload_resolution(
    tier: Tier,
    payload: Option<LhmResponseView>,
    timestamp: u64,
) -> ResolutionView {
    match payload {
        Some(p) => ResolutionView::Resolved(daemon_snapshot(p, timestamp)),
        None => ResolutionView::Consult(
            match tier {
                Tier::Daemon => Tier::OneShot,
                _ => Tier::Structured,
            },
        ),
    }
}

/// The snapshot of a poll, given what each tier would answer: the daemon's
/// payload serves it; without one, the one-shot run's; without that, the
/// structured tier.
pub open spec fn resolved(
    daemon: Option<LhmResponseView>,
    one_shot: Option<LhmResponseView>,
    session: WmiSession,
    timestamp: u64,
) -> HardwareView {
    match daemon {
        Some(p) => daemon_snapshot(p, timestamp),
        None => match one_shot {
            Some(p) => daemon_snapshot(p, timestamp),
            None => wmi_snapshot(session, timestamp),
        },
    }
}

/// The payload that serves a poll, if one does.
pub open spec fn serving_payload(
    daemon: Option<LhmResponseView>,
    one_shot: Option<LhmResponseView>,
) -> Option<LhmResponseView> {
    match daemon {
        Some(p) => Some(p),
        None => one_shot,
    }
}

/// The timestamp of a snapshot is the one that the poll was given, so
/// snapshots are stamped in the order of the clock that stamps the polls.
pub proof fn lemma_timestamps_follow_clock(
    daemon_a: Option<LhmResponseView>,
    one_shot_a: Option<LhmResponseView>,
    session_a: WmiSession,
    earlier: u64,
    daemon_b: Option<LhmResponseView>,
    one_shot_b: Option<LhmResponseView>,
    session_b: WmiSession,
    later: u64,
)
    requires
        earlier <= later,
    ensures
        resolved(daemon_a, one_shot_a, session_a, earlier).timestamp == earlier,
        resolved(daemon_b, one_shot_b, session_b, later).timestamp == later,
        resolved(daemon_a, one_shot_a, session_a, earlier).timestamp <= resolved(
            daemon_b,
            one_shot_b,
            session_b,
            later,
        ).timestamp,
{
}

/// An error text never stands beside a reading, whichever tier served the
/// poll.
pub proof fn lemma_reading_excludes_error(
    daemon: Option<LhmResponseView>,
    one_shot: Option<LhmResponseView>,
    session: WmiSession,
    timestamp: u64,
)
    ensures
        resolved(daemon, one_shot, session, timestamp).cpu is Some ==> resolved(
            daemon,
            one_shot,
            session,
            timestamp,
        ).cpu_error is None,
        resolved(daemon, one_shot, session, timestamp).gpu is Some ==> resolved(
            daemon,
            one_shot,
            session,
            timestamp,
        ).gpu_error is None,
{
}

/// A missing processor reading comes with its error text, and a present
/// one without, unless a payload served the poll and left the processor
/// out: a payload never brings an error text.
pub proof fn lemma_cpu_reading_or_error(
    daemon: Option<LhmResponseView>,
    one_shot: Option<LhmResponseView>,
    session: WmiSession,
    timestamp: u64,
)
    requires
        serving_payload(daemon, one_shot) matches Some(p) ==> p.cpu is Some,
    ensures
        resolved(daemon, one_shot, session, timestamp).cpu is None <==> resolved(
            daemon,
            one_shot,
            session,
            timestamp,
        ).cpu_error is Some,
{
}

/// A missing graphics reading comes with its error text, and a present one
/// without, unless a payload served the poll and left graphics out.
pub proof fn lemma_gpu_reading_or_error(
    daemon: Option<LhmResponseView>,
    one_shot: Option<LhmResponseView>,
    session: WmiSession,
    timestamp: u64,
)
    requires
        serving_payload(daemon, one_shot) matches Some(p) ==> p.gpu is Some,
    ensures
        resolved(daemon, one_shot, session, timestamp).gpu is None <==> resolved(
            daemon,
            one_shot,
            session,
            timestamp,
        ).gpu_error is Some,
{
}

/// A payload that serves a poll decides it alone: what it leaves out is
/// absent from the snapshot, and no error text is made up for it.
pub proof fn lemma_payload_brings_no_error(
    daemon: Option<LhmResponseView>,
    one_shot: Option<LhmResponseView>,
    session: WmiSession,
    timestamp: u64,
)
    requires
        serving_payload(daemon, one_shot) is Some,
    ensures
        ({
            let p = serving_payload(daemon, one_shot)->0;
            let snapshot = resolved(daemon, one_shot, session, timestamp);
            &&& snapshot == daemon_snapshot(p, timestamp)
            &&& snapshot.cpu_error is None
            &&& snapshot.gpu_error is None
            &&& p.cpu is None ==> snapshot.cpu is None
            &&& p.gpu is None ==> snapshot.gpu is None
            &&& p.storage is None ==> snapshot.storage is None
            &&& p.motherboard is None ==> snapshot.motherboard is None
        }),
{
}

/// Whichever tier serves a poll, the snapshot is well formed: no fan that
/// stands still is listed, and no error text stands beside a reading.
pub proof fn lemma_resolved_well_formed(
    daemon: Option<LhmResponseView>,
    one_shot: Option<LhmResponseView>,
    session: WmiSession,
    timestamp: u64,
)
    ensures
        resolved(daemon, one_shot, session, timestamp).well_formed(),
{
    match serving_payload(daemon, one_shot) {
        Some(p) => {
            if let Some(board) = p.motherboard {
                if let Some(fans) = board.fans {
                    lemma_present_fans_turn(fans);
                }
            }
        },
        None => {
            if let WmiSession::Connected(readings) = session {
                lemma_fan_speeds_turn(readings.fans, readings.generic_fans);
            }
        },
    }
}

/// The tier that is consulted after `tier`.
pub fn next_tier(tier: Tier) -> (r: Option<Tier>)
    ensures
        r == tier_after(tier),
{
    match tier {
        Tier::Daemon => Some(Tier::OneShot),
        Tier::OneShot => Some(Tier::Structured),
        Tier::Structured => None,
    }
}

/// Decides the poll after the daemon tier: its payload serves the poll,
/// and without one the one-shot run is next.
pub fn resolve_daemon(timestamp: u64, payload: Option<&LhmResponse>) -> (r: Resolution)
    ensures
        r@ == payload_resolution(Tier::Daemon, payload.deep_view(), timestamp),
        r matches Resolution::Resolved(snapshot) ==> snapshot@.well_formed(),
{
    match payload {
        Some(p) => Resolution::Resolved(snapshot_from_daemon(p, timestamp)),
        None => Resolution::Consult(Tier::OneShot),
    }
}

/// Decides the poll after a one-shot run: its document serves the poll if
/// the run exited with code zero, and otherwise the structured tier is
/// next.
pub fn resolve_one_shot(timestamp: u64, run: &OneShotRun) -> (r: Resolution)
    ensures
        r@ == payload_resolution(Tier::OneShot, one_shot_payload(*run), timestamp),
        r matches Resolution::Resolved(snapshot) ==> snapshot@.well_formed(),
{
    if run.exit_success {
        match &run.document {
            Some(p) => {
                return Resolution::Resolved(snapshot_from_daemon(p, timestamp));
            },
            None => {},
        }
    }
    Resolution::Consult(Tier::Structured)
}

/// Resolves one poll from what the three tiers answer. Never fails, and
/// stamps the snapshot with `timestamp`.
pub fn get_hardware_info(
    timestamp: u64,
    daemon: Option<&LhmResponse>,
    one_shot: &OneShotRun,
    session: &WmiSession,
) -> (r: HardwareData)
    ensures
        r@ == resolved(daemon.deep_view(), one_shot_payload(*one_shot), *session, timestamp),
        r@.well_formed(),
        r@.timestamp == timestamp,
{
    match resolve_daemon(timestamp, daemon) {
        Resolution::Resolved(snapshot) => snapshot,
        Resolution::Consult(_) => match resolve_one_shot(timestamp, one_shot) {
            Resolution::Resolved(snapshot) => snapshot,
            Resolution::Consult(_) => get_hardware_from_wmi(timestamp, session),
        },
    }
}

} // verus!

//! Supervision of the helper daemon.
//!
//! The supervisor decides; its caller performs. Each step hands back what to
//! do next (launch the helper, look whether it still runs, drain its output,
//! parse a line) and the caller answers with what happened. No step waits:
//! a drain that brings nothing new leaves the last good payload in place.

use vstd::prelude::*;
use vstd::string::*;
use crate::payload::{LhmResponse, LhmResponseView};
use crate::text::{is_blank, trim, trimmed};

verus! {

/// File name of the helper, which stands beside the running executable.
pub const HELPER_BINARY: &'static str = "ondo-hwmon.exe";

/// Argument that puts the helper into streaming mode.
pub const DAEMON_FLAG: &'static str = "--daemon";

/// Sampling interval of the streaming helper, in milliseconds.
pub const DAEMON_INTERVAL_MS: u32 = 1000;

/// How an attempt to launch the helper ended.
#[derive(Clone, Debug, PartialEq, Eq)]
pub enum LaunchOutcome {
    /// The path of the running executable could not be read.
    ExePathUnknown { detail: String },
    /// The running executable has no parent directory.
    ExeDirUnknown,
    /// No helper stands at `path`.
    BinaryMissing { path: String },
    /// The helper exists but could not be started.
    SpawnFailed { detail: String },
    /// The helper started without a readable standard output.
    StdoutMissing,
    /// The helper runs and its output can be read.
    Started,
}

/// What a look at the helper process showed.
#[derive(Clone, Copy, Debug, PartialEq, Eq, Structural)]
pub enum Liveness {
    /// The process still runs.
    Running,
    /// The process has exited.
    Exited,
    /// The state of the process could not be read.
    Unknown,
}

/// What the caller is to do next.
#[derive(Clone, Debug, PartialEq, Eq)]
pub enum Step {
    /// Launch the helper and report with `launched`.
    Launch,
    /// Look whether the helper still runs and report with `liveness`.
    CheckLiveness,
    /// Read every line that is buffered, without waiting, and report with
    /// `drained`.
    Drain,
    /// Parse this line as a payload and report with `parsed`.
    Parse(String),
    /// Nothing more: the reading of this poll is `latest`.
    Done,
}

pub enum StepView {
    Launch,
    CheckLiveness,
    Drain,
    Parse(Seq<char>),
    Done,
}

impl View for Step {
    type V = StepView;

    open spec fn view(&self) -> StepView {
        match self {
            Step::Launch => StepView::Launch,
            Step::CheckLiveness => StepView::CheckLiveness,
            Step::Drain => StepView::Drain,
            Step::Parse(line) => StepView::Parse(line@),
            Step::Done => StepView::Done,
        }
    }
}

/// An attached helper process: the last payload that parsed, if any did.
#[derive(Clone, Debug, PartialEq, Eq)]
pub struct LhmDaemon {
    latest_data: Option<LhmResponse>,
}

/// The supervisor's state: at most one attached helper. The state is the
/// supervisor's own; it changes through the steps below and in no other
/// way.
#[derive(Clone, Debug, PartialEq, Eq)]
pub struct Supervisor {
    daemon: Option<LhmDaemon>,
}

/// The supervisor as contracts see it. Without an attached helper there is no
/// cached payload.
#[verifier::ext_equal]
pub struct SupervisorView {
    pub attached: bool,
    pub cached: Option<LhmResponseView>,
}

impl View for Supervisor {
    type V = SupervisorView;

    closed spec fn view(&self) -> SupervisorView {
        match self.daemon {
            Some(daemon) => SupervisorView {
                attached: true,
                cached: daemon.latest_data.deep_view(),
            },
            None => SupervisorView { attached: false, cached: None },
        }
    }
}

/// The state in which no helper is attached.
pub open spec fn idle() -> SupervisorView {
    SupervisorView { attached: false, cached: None }
}

/// The newest line with content among `lines`: each line is trimmed, and
/// the last one that is not empty then wins.
pub open spec fn latest_line(lines: Seq<Seq<char>>) -> Option<Seq<char>>
    decreases lines.len(),
{
    if lines.len() == 0 {
        None
    } else if trimmed(lines.last()).len() > 0 {
        Some(trimmed(lines.last()))
    } else {
        latest_line(lines.drop_last())
    }
}

/// The step that opens a poll.
pub open spec fn begin_step(s: SupervisorView) -> StepView {
    if s.attached {
        StepView::CheckLiveness
    } else {
        StepView::Launch
    }
}

/// The state after a launch attempt: a fresh helper without a payload, or
/// no helper at all, so that the next poll tries again.
pub open spec fn after_launch(started: bool) -> SupervisorView {
    SupervisorView { attached: started, cached: None }
}

/// The step after a launch attempt.
pub open spec fn launch_step(started: bool) -> StepView {
    if started {
        StepView::CheckLiveness
    } else {
        StepView::Done
    }
}

/// The state after a look at the process: a helper that no longer runs, or
/// whose state cannot be read, is dropped with all it had cached.
pub open spec fn after_liveness(s: SupervisorView, status: Liveness) -> SupervisorView {
    if status == Liveness::Running {
        s
    } else {
        idle()
    }
}

/// The step after a look at the process.
pub open spec fn liveness_step(s: SupervisorView, status: Liveness) -> StepView {
    if status == Liveness::Running && s.attached {
        StepView::Drain
    } else {
        StepView::Done
    }
}

/// The step after a drain that read `lines`.
pub open spec fn drain_step(s: SupervisorView, lines: Seq<Seq<char>>) -> StepView {
    match latest_line(lines) {
        Some(line) if s.attached => StepView::Parse(line),
        _ => StepView::Done,
    }
}

/// The state after the newest line was parsed: a payload replaces the
/// cached one, a line that does not parse changes nothing.
pub open spec fn after_parse(s: SupervisorView, payload: Option<LhmResponseView>) -> SupervisorView {
    if s.attached && payload is Some {
        SupervisorView { attached: true, cached: payload }
    } else {
        s
    }
}

/// The state after a shutdown: no helper is attached, whatever was before.
pub open spec fn after_shutdown(s: SupervisorView) -> SupervisorView {
    idle()
}

/// The state in which one poll leaves the supervisor, given what the caller
/// met on the way: whether a launch succeeded, what the look at the process
/// showed, which lines the drain read and what a line parses to. The reading
/// of the poll is the cached payload of that state.
pub open spec fn poll_outcome(
    s: SupervisorView,
    started: bool,
    status: Liveness,
    lines: Seq<Seq<char>>,
    parse: spec_fn(Seq<char>) -> Option<LhmResponseView>,
) -> SupervisorView {
    let launched = if s.attached {
        s
    } else {
        after_launch(started)
    };
    if !launched.attached {
        launched
    } else {
        let alive = after_liveness(launched, status);
        match drain_step(alive, lines) {
            StepView::Parse(line) => after_parse(alive, parse(line)),
            _ => alive,
        }
    }
}

/// Whether a drain brought nothing: no line has content once trimmed.
pub open spec fn all_blank(lines: Seq<Seq<char>>) -> bool {
    forall|i: int| 0 <= i < lines.len() ==> trimmed(#[trigger] lines[i]).len() == 0
}

/// A drain picks a line exactly when some line has content.
pub proof fn lemma_latest_line_none(lines: Seq<Seq<char>>)
    ensures
        latest_line(lines) is None <==> all_blank(lines),
        latest_line(lines) matches Some(line) ==> line.len() > 0,
    decreases lines.len(),
{
    if lines.len() > 0 {
        lemma_latest_line_none(lines.drop_last());
        if trimmed(lines.last()).len() == 0 {
            assert forall|i: int| 0 <= i < lines.len() && all_blank(
                lines.drop_last(),
            ) implies trimmed(#[trigger] lines[i]).len() == 0 by {
                if i < lines.len() - 1 {
                    assert(lines.drop_last()[i] == lines[i]);
                }
            }
            if all_blank(lines) {
                assert forall|i: int| 0 <= i < lines.drop_last().len() implies trimmed(
                    #[trigger] lines.drop_last()[i],
                ).len() == 0 by {
                    assert(lines.drop_last()[i] == lines[i]);
                }
            }
        } else {
            assert(trimmed(lines[lines.len() - 1]).len() > 0);
        }
    }
}

/// The newest line wins: where line `k` has content and no later line has,
/// the drain picks line `k`, trimmed, whatever came before it.
pub proof fn lemma_newest_line_wins(lines: Seq<Seq<char>>, k: int)
    requires
        0 <= k < lines.len(),
        trimmed(lines[k]).len() > 0,
        forall|j: int| k < j < lines.len() ==> trimmed(#[trigger] lines[j]).len() == 0,
    ensures
        latest_line(lines) == Some(trimmed(lines[k])),
    decreases lines.len(),
{
    if k < lines.len() - 1 {
        assert(trimmed(lines[lines.len() - 1]).len() == 0);
        assert(lines.drop_last()[k] == lines[k]);
        assert forall|j: int| k < j < lines.drop_last().len() implies trimmed(
            #[trigger] lines.drop_last()[j],
        ).len() == 0 by {
            assert(lines.drop_last()[j] == lines[j]);
        }
        lemma_newest_line_wins(lines.drop_last(), k);
    }
}

/// A drain of a running helper that has nothing buffered ends the poll with
/// the payload that was cached before, unchanged: a stall in the helper's
/// output does not blank the reading.
pub proof fn lemma_quiet_drain_keeps_cache(
    s: SupervisorView,
    started: bool,
    lines: Seq<Seq<char>>,
    parse: spec_fn(Seq<char>) -> Option<LhmResponseView>,
)
    requires
        s.attached,
        all_blank(lines),
    ensures
        drain_step(s, lines) == StepView::Done,
        poll_outcome(s, started, Liveness::Running, lines, parse) == s,
{
    lemma_latest_line_none(lines);
}

/// A line that does not parse leaves the cached payload in place.
pub proof fn lemma_bad_line_keeps_cache(
    s: SupervisorView,
    started: bool,
    lines: Seq<Seq<char>>,
    parse: spec_fn(Seq<char>) -> Option<LhmResponseView>,
)
    requires
        s.attached,
        latest_line(lines) matches Some(line) && parse(line) is None,
    ensures
        poll_outcome(s, started, Liveness::Running, lines, parse) == s,
{
}

/// A launch that fails, and a helper that is found dead, both leave no
/// helper attached and no payload: the next poll starts with a launch.
pub proof fn lemma_failure_forces_relaunch(
    s: SupervisorView,
    started: bool,
    status: Liveness,
    lines: Seq<Seq<char>>,
    parse: spec_fn(Seq<char>) -> Option<LhmResponseView>,
)
    requires
        (!s.attached && !started) || status != Liveness::Running,
    ensures
        poll_outcome(s, started, status, lines, parse) == idle(),
        begin_step(poll_outcome(s, started, status, lines, parse)) == StepView::Launch,
{
}

/// Without an attached helper nothing is cached, whatever a poll met.
pub proof fn lemma_cache_needs_helper(
    s: SupervisorView,
    started: bool,
    status: Liveness,
    lines: Seq<Seq<char>>,
    parse: spec_fn(Seq<char>) -> Option<LhmResponseView>,
)
    requires
        !s.attached ==> s.cached is None,
    ensures
        !poll_outcome(s, started, status, lines, parse).attached ==> poll_outcome(
            s,
            started,
            status,
            lines,
            parse,
        ).cached is None,
{
}

/// Shutting down twice is shutting down once: the first call leaves no
/// helper attached, so the second finds nothing to terminate and changes
/// nothing.
pub proof fn lemma_shutdown_idempotent(s: SupervisorView)
    ensures
        after_shutdown(after_shutdown(s)) == after_shutdown(s),
        !after_shutdown(s).attached,
        after_shutdown(idle()) == idle(),
{
}

/// The message that records a failed launch; a launch that succeeded has
/// none.
pub open spec fn launch_error(outcome: LaunchOutcome) -> Option<Seq<char>> {
    match outcome {
        LaunchOutcome::ExePathUnknown { detail } => Some("Cannot get exe path: "@ + detail@),
        LaunchOutcome::ExeDirUnknown => Some("Cannot get exe directory"@),
        LaunchOutcome::BinaryMissing { path } => Some("LHM CLI not found at "@ + path@),
        LaunchOutcome::SpawnFailed { detail } => Some("Failed to start LHM daemon: "@ + detail@),
        LaunchOutcome::StdoutMissing => Some("Failed to capture LHM daemon stdout"@),
        LaunchOutcome::Started => None,
    }
}

/// The message that records a failed launch.
pub fn launch_error_message(outcome: &LaunchOutcome) -> (r: Option<String>)
    ensures
        r.deep_view() == launch_error(*outcome),
{
    match outcome {
        LaunchOutcome::ExePathUnknown { detail } => Some(
            String::from_str("Cannot get exe path: ").concat(detail.as_str()),
        ),
        LaunchOutcome::ExeDirUnknown => Some(String::from_str("Cannot get exe directory")),
        LaunchOutcome::BinaryMissing { path } => Some(
            String::from_str("LHM CLI not found at ").concat(path.as_str()),
        ),
        LaunchOutcome::SpawnFailed { detail } => Some(
            String::from_str("Failed to start LHM daemon: ").concat(detail.as_str()),
        ),
        LaunchOutcome::StdoutMissing => Some(
            String::from_str("Failed to capture LHM daemon stdout"),
        ),
        LaunchOutcome::Started => None,
    }
}

/// Picks the newest line with content from what one drain read.
pub fn newest_line(lines: &Vec<String>) -> (r: Option<String>)
    ensures
        r.deep_view() == latest_line(lines.deep_view()),
{
    let mut latest: Option<String> = None;
    let n = lines.len();
    let mut i: usize = 0;
    assert(lines.deep_view().take(0) =~= Seq::<Seq<char>>::empty());
    while i < n
        invariant
            n == lines@.len(),
            i <= n,
            latest.deep_view() == latest_line(lines.deep_view().take(i as int)),
        decreases n - i,
    {
        let ghost seen = lines.deep_view().take(i + 1);
        proof {
            assert(seen.drop_last() =~= lines.deep_view().take(i as int));
            assert(seen.last() == lines@[i as int]@);
        }
        if !is_blank(lines[i].as_str()) {
            latest = Some(trim(lines[i].as_str()));
        }
        i = i + 1;
    }
    assert(lines.deep_view().take(n as int) =~= lines.deep_view());
    latest
}

impl Supervisor {
    /// A supervisor that has no helper attached.
    pub fn new() -> (r: Supervisor)
        ensures
            r@ == idle(),
    {
        Supervisor { daemon: None }
    }

    /// Whether a helper is attached.
    pub fn is_attached(&self) -> (r: bool)
        ensures
            r == self@.attached,
    {
        self.daemon.is_some()
    }

    /// Opens a poll: an attached helper is looked at, a missing one launched.
    pub fn begin(&self) -> (step: Step)
        ensures
            step@ == begin_step(self@),
    {
        if self.daemon.is_some() {
            Step::CheckLiveness
        } else {
            Step::Launch
        }
    }

    /// Takes in how a launch ended.
    pub fn launched(&mut self, outcome: &LaunchOutcome) -> (step: Step)
        ensures
            final(self)@ == after_launch(*outcome is Started),
            step@ == launch_step(*outcome is Started),
    {
        match outcome {
            LaunchOutcome::Started => {
                self.daemon = Some(LhmDaemon { latest_data: None });
                Step::CheckLiveness
            },
            _ => {
                self.daemon = None;
                Step::Done
            },
        }
    }

    /// Takes in what a look at the process showed.
    pub fn liveness(&mut self, status: Liveness) -> (step: Step)
        ensures
            final(self)@ == after_liveness(old(self)@, status),
            step@ == liveness_step(old(self)@, status),
    {
        match status {
            Liveness::Running => {
                if self.daemon.is_some() {
                    Step::Drain
                } else {
                    Step::Done
                }
            },
            _ => {
                self.daemon = None;
                Step::Done
            },
        }
    }

    /// Takes in the lines that a drain read, oldest first. The state does
    /// not change: only a line that parses replaces the cached payload.
    pub fn drained(&self, lines: &Vec<String>) -> (step: Step)
        ensures
            step@ == drain_step(self@, lines.deep_view()),
    {
        if self.daemon.is_none() {
            return Step::Done;
        }
        match newest_line(lines) {
            Some(line) => Step::Parse(line),
            None => Step::Done,
        }
    }

    /// Takes in the payload that the newest line parsed to, or `None` if it
    /// did not parse. Always ends the poll.
    pub fn parsed(&mut self, payload: Option<LhmResponse>) -> (step: Step)
        ensures
            final(self)@ == after_parse(old(self)@, payload.deep_view()),
            step@ == StepView::Done,
    {
        if self.daemon.is_some() && payload.is_some() {
            self.daemon = Some(LhmDaemon { latest_data: payload });
        }
        Step::Done
    }

    /// The reading of this poll: the last payload that parsed while the
    /// attached helper ran.
    pub fn latest(&self) -> (r: Option<&LhmResponse>)
        ensures
            r.deep_view() == self@.cached,
    {
        match &self.daemon {
            Some(daemon) => daemon.latest_data.as_ref(),
            None => None,
        }
    }

    /// Forgets the helper. Returns whether one was attached, which the caller
    /// then has to terminate.
    pub fn shutdown(&mut self) -> (terminate: bool)
        ensures
            final(self)@ == after_shutdown(old(self)@),
            terminate == old(self)@.attached,
    {
        let attached = self.daemon.is_some();
        self.daemon = None;
        attached
    }
}

/// Releases the supervised helper: the supervisor forgets it, and the result
/// says whether there is a process to terminate. Safe at any time and any
/// number of times.
pub fn shutdown_lhm_daemon(supervisor: &mut Supervisor) -> (terminate: bool)
    ensures
        final(supervisor)@ == after_shutdown(old(supervisor)@),
        terminate == old(supervisor)@.attached,
{
    supervisor.shutdown()
}

} // verus!

use vstd::prelude::*;
use crate::policy::UpdateCheckPolicy;
use crate::progress::{add_chunk, saturated_sum};

verus! {

/// How an available update is presented before it is downloaded.
///
/// `Mandatory`: a blocking prompt with a single acknowledgement control; the
/// prompt informs and does not gate, so the download starts once it closes,
/// however it was closed. `Informational`: no prompt; the update is logged
/// and the download starts at once.
#[derive(Clone, Copy, Debug, PartialEq, Eq, Structural)]
pub enum PromptMode {
    Mandatory,
    Informational,
}

/// What the update source knows of an available update.
#[derive(Clone, Debug)]
pub struct UpdateDescriptor {
    pub current_version: String,
    pub available_version: String,
}

/// The answer of one check against the update source.
#[derive(Clone, Debug)]
pub enum CheckOutcome {
    NoUpdate,
    UpdateAvailable(UpdateDescriptor),
    CheckFailed(String),
}

/// Failures that reach the caller: those after the update was committed to.
/// A failed check is absorbed and never becomes one of these.
#[derive(Clone, Copy, Debug, PartialEq, Eq, Structural)]
pub enum UpdateError {
    TransferFailure,
    InstallFailure,
    RestartFailure,
}

/// What the host reports back to the controller.
#[derive(Clone, Debug)]
pub enum Event {
    /// The trigger fired (startup or a manual "check now").
    Start,
    /// The update source answered.
    Checked(CheckOutcome),
    /// The update prompt was closed.
    PromptClosed,
    /// A chunk of the given length arrived; the total size when known.
    Chunk(u64, Option<u64>),
    /// The download's completion callback fired.
    DownloadComplete,
    /// The download-and-install call returned successfully.
    Installed,
    /// The download-and-install call returned an error.
    UpdateFailed,
    /// The restart primitive returned instead of replacing the process.
    RestartFailed,
}

/// Something shown to the user when a cycle ends without an update.
#[derive(Clone, Debug)]
pub enum Notice {
    UpToDate,
    CheckFailed(String),
}

/// What the host does next.
#[derive(Debug)]
pub enum Action {
    /// Ask the update source whether a newer version exists.
    QuerySource,
    /// Show the blocking "update required" prompt for this version.
    Prompt(String),
    /// Start downloading and installing the update.
    Download,
    /// Report the bytes received so far, and the total when known.
    Progress(u64, Option<u64>),
    /// Restart the application; the last action of a successful cycle.
    Restart,
    /// The cycle is over: show the notice, if any, and hand `Ok` (startup
    /// continues) or the error to the caller.
    Finish(Option<Notice>, Result<(), UpdateError>),
    /// The event does not belong to the current phase; nothing to do.
    Ignore,
}

/// Where a cycle stands.
#[derive(Clone, Copy, Debug, PartialEq, Eq, Structural)]
pub enum Phase {
    Ready,
    Checking,
    Prompting,
    Downloading,
    Restarting,
    Finished,
}

/// One update cycle. A controller is made for one invocation and holds no
/// state beyond it: the policy, the presentation mode, where the cycle is,
/// and the progress of the download.
#[derive(Clone, Copy, Debug)]
pub struct UpdateController {
    pub policy: UpdateCheckPolicy,
    pub mode: PromptMode,
    pub phase: Phase,
    pub received: u64,
    pub total: Option<u64>,
    pub download_finished: bool,
}

/// A fresh controller, before its trigger fires.
pub open spec fn initial(policy: UpdateCheckPolicy, mode: PromptMode) -> UpdateController {
    UpdateController {
        policy,
        mode,
        phase: Phase::Ready,
        received: 0,
        total: None,
        download_finished: false,
    }
}

pub open spec fn with_phase(s: UpdateController, p: Phase) -> UpdateController {
    UpdateController { phase: p, ..s }
}

/// The state after `e` arrives in state `s`.
pub open spec fn next_state(s: UpdateController, e: Event) -> UpdateController {
    match s.phase {
        Phase::Ready => match e {
            Event::Start => if s.policy.suppressed {
                with_phase(s, Phase::Finished)
            } else {
                with_phase(s, Phase::Checking)
            },
            _ => s,
        },
        Phase::Checking => match e {
            Event::Checked(CheckOutcome::UpdateAvailable(_)) => match s.mode {
                PromptMode::Mandatory => with_phase(s, Phase::Prompting),
                PromptMode::Informational => with_phase(s, Phase::Downloading),
            },
            Event::Checked(_) => with_phase(s, Phase::Finished),
            _ => s,
        },
        Phase::Prompting => match e {
            Event::PromptClosed => with_phase(s, Phase::Downloading),
            _ => s,
        },
        Phase::Downloading => match e {
            Event::Chunk(len, total) => UpdateController {
                received: saturated_sum(s.received, len),
                total: if total is Some { total } else { s.total },
                ..s
            },
            Event::DownloadComplete => UpdateController { download_finished: true, ..s },
            Event::Installed => if s.download_finished {
                with_phase(s, Phase::Restarting)
            } else {
                s
            },
            Event::UpdateFailed => with_phase(s, Phase::Finished),
            _ => s,
        },
        Phase::Restarting => match e {
            Event::RestartFailed => with_phase(s, Phase::Finished),
            _ => s,
        },
        Phase::Finished => s,
    }
}

/// What the host is told to do when `e` arrives in state `s`.
pub open spec fn next_action(s: UpdateController, e: Event) -> Action {
    match s.phase {
        Phase::Ready => match e {
            Event::Start => if s.policy.suppressed {
                Action::Finish(None, Ok(()))
            } else {
                Action::QuerySource
            },
            _ => Action::Ignore,
        },
        Phase::Checking => match e {
            Event::Checked(CheckOutcome::NoUpdate) => Action::Finish(
                if s.policy.announce_up_to_date {
                    Some(Notice::UpToDate)
                } else {
                    None
                },
                Ok(()),
            ),
            Event::Checked(CheckOutcome::CheckFailed(reason)) => Action::Finish(
                if s.policy.announce_up_to_date {
                    Some(Notice::CheckFailed(reason))
                } else {
                    None
                },
                Ok(()),
            ),
            Event::Checked(CheckOutcome::UpdateAvailable(d)) => match s.mode {
                PromptMode::Mandatory => Action::Prompt(d.available_version),
                PromptMode::Informational => Action::Download,
            },
            _ => Action::Ignore,
        },
        Phase::Prompting => match e {
            Event::PromptClosed => Action::Download,
            _ => Action::Ignore,
        },
        Phase::Downloading => match e {
            Event::Chunk(_, _) => Action::Progress(
                next_state(s, e).received,
                next_state(s, e).total,
            ),
            Event::Installed => if s.download_finished {
                Action::Restart
            } else {
                Action::Ignore
            },
            Event::UpdateFailed => Action::Finish(
                None,
                Err(
                    if s.download_finished {
                        UpdateError::InstallFailure
                    } else {
                        UpdateError::TransferFailure
                    },
                ),
            ),
            _ => Action::Ignore,
        },
        Phase::Restarting => match e {
            Event::RestartFailed => Action::Finish(None, Err(UpdateError::RestartFailure)),
            _ => Action::Ignore,
        },
        Phase::Finished => Action::Ignore,
    }
}

/// The state after the events `evs`, taken in order from `s`.
pub open spec fn run_state(s: UpdateController, evs: Seq<Event>) -> UpdateController
    decreases evs.len(),
{
    if evs.len() == 0 {
        s
    } else {
        run_state(next_state(s, evs[0]), evs.drop_first())
    }
}

/// The actions answered to the events `evs`, taken in order from `s`.
pub open spec fn run_actions(s: UpdateController, evs: Seq<Event>) -> Seq<Action>
    decreases evs.len(),
{
    if evs.len() == 0 {
        Seq::empty()
    } else {
        seq![next_action(s, evs[0])] + run_actions(next_state(s, evs[0]), evs.drop_first())
    }
}

/// The byte count that an action reports, if it is a progress report.
pub open spec fn reported_bytes(a: Action) -> Option<u64> {
    match a {
        Action::Progress(b, _) => Some(b),
        _ => None,
    }
}

/// One action for each event.
pub proof fn lemma_one_action_per_event(s: UpdateController, evs: Seq<Event>)
    ensures
        run_actions(s, evs).len() == evs.len(),
    decreases evs.len(),
{
    if evs.len() > 0 {
        lemma_one_action_per_event(next_state(s, evs[0]), evs.drop_first());
    }
}

proof fn lemma_suppressed_quiet(s: UpdateController, evs: Seq<Event>)
    requires
        s.policy.suppressed,
        s.phase == Phase::Ready || s.phase == Phase::Finished,
    ensures
        forall|i: int| 0 <= i < evs.len() ==> !(#[trigger] run_actions(s, evs)[i] is QuerySource),
    decreases evs.len(),
{
    lemma_one_action_per_event(s, evs);
    if evs.len() > 0 {
        let t = next_state(s, evs[0]);
        lemma_suppressed_quiet(t, evs.drop_first());
        lemma_one_action_per_event(t, evs.drop_first());
        assert forall|i: int| 0 <= i < evs.len() implies !(#[trigger] run_actions(s, evs)[i] is QuerySource) by {
            if i > 0 {
                assert(run_actions(s, evs)[i] == run_actions(t, evs.drop_first())[i - 1]);
            }
        }
    }
}

/// With the check suppressed, the trigger ends the cycle at once with `Ok`,
/// and whatever events follow, the update source is never queried.
pub proof fn lemma_suppressed_never_queries(
    policy: UpdateCheckPolicy,
    mode: PromptMode,
    evs: Seq<Event>,
)
    requires
        policy.suppressed,
    ensures
        next_action(initial(policy, mode), Event::Start) == Action::Finish(None, Ok(())),
        next_state(initial(policy, mode), Event::Start).phase == Phase::Finished,
        forall|i: int|
            0 <= i < evs.len() ==> !(#[trigger] run_actions(initial(policy, mode), evs)[i] is QuerySource),
{
    lemma_suppressed_quiet(initial(policy, mode), evs);
}

/// A failed check ends the cycle with `Ok`, whether or not an up-to-date
/// result is announced; the failure is shown only when it is.
pub proof fn lemma_check_failed_continues(s: UpdateController, reason: String)
    requires
        s.phase == Phase::Checking,
    ensures
        next_action(s, Event::Checked(CheckOutcome::CheckFailed(reason))) == Action::Finish(
            if s.policy.announce_up_to_date {
                Some(Notice::CheckFailed(reason))
            } else {
                None
            },
            Ok(()),
        ),
        next_state(s, Event::Checked(CheckOutcome::CheckFailed(reason))).phase == Phase::Finished,
{
}

/// When no update exists, the cycle ends with `Ok`, and the up-to-date
/// notice is shown if and only if it is to be announced.
pub proof fn lemma_no_update_notice(s: UpdateController)
    requires
        s.phase == Phase::Checking,
    ensures
        next_action(s, Event::Checked(CheckOutcome::NoUpdate)) matches Action::Finish(n, r) && r
            == Ok::<(), UpdateError>(()) && (n == Some(Notice::UpToDate)
            <==> s.policy.announce_up_to_date) && (n is None <==> !s.policy.announce_up_to_date),
        next_state(s, Event::Checked(CheckOutcome::NoUpdate)).phase == Phase::Finished,
{
}

/// No event lowers the byte count.
pub proof fn lemma_received_never_decreases(s: UpdateController, evs: Seq<Event>)
    ensures
        evs.len() > 0 ==> next_state(s, evs[0]).received >= s.received,
        run_state(s, evs).received >= s.received,
    decreases evs.len(),
{
    if evs.len() > 0 {
        lemma_received_never_decreases(next_state(s, evs[0]), evs.drop_first());
    }
}

proof fn lemma_reports_at_least(s: UpdateController, evs: Seq<Event>)
    ensures
        forall|i: int|
            0 <= i < evs.len() && (#[trigger] reported_bytes(run_actions(s, evs)[i])) is Some
                ==> reported_bytes(run_actions(s, evs)[i])->0 >= s.received,
    decreases evs.len(),
{
    lemma_one_action_per_event(s, evs);
    if evs.len() > 0 {
        let t = next_state(s, evs[0]);
        lemma_received_never_decreases(s, evs);
        lemma_reports_at_least(t, evs.drop_first());
        lemma_one_action_per_event(t, evs.drop_first());
        assert forall|i: int|
            0 <= i < evs.len() && (#[trigger] reported_bytes(run_actions(s, evs)[i])) is Some
                implies reported_bytes(run_actions(s, evs)[i])->0 >= s.received by {
            if i > 0 {
                assert(run_actions(s, evs)[i] == run_actions(t, evs.drop_first())[i - 1]);
            }
        }
    }
}

/// Within one cycle the reported byte counts never go down: a later
/// progress report shows at least as many bytes as an earlier one.
pub proof fn lemma_progress_monotone(s: UpdateController, evs: Seq<Event>)
    ensures
        forall|i: int, j: int|
            0 <= i < j < evs.len() && (#[trigger] reported_bytes(run_actions(s, evs)[i])) is Some
                && (#[trigger] reported_bytes(run_actions(s, evs)[j])) is Some
                ==> reported_bytes(run_actions(s, evs)[i])->0 <= reported_bytes(
                run_actions(s, evs)[j],
            )->0,
    decreases evs.len(),
{
    lemma_one_action_per_event(s, evs);
    if evs.len() > 0 {
        let t = next_state(s, evs[0]);
        let rest = evs.drop_first();
        lemma_progress_monotone(t, rest);
        lemma_reports_at_least(t, rest);
        lemma_one_action_per_event(t, rest);
        assert forall|i: int, j: int|
            0 <= i < j < evs.len() && (#[trigger] reported_bytes(run_actions(s, evs)[i])) is Some
                && (#[trigger] reported_bytes(run_actions(s, evs)[j])) is Some
                implies reported_bytes(run_actions(s, evs)[i])->0 <= reported_bytes(
                run_actions(s, evs)[j],
            )->0 by {
            assert(run_actions(s, evs)[j] == run_actions(t, rest)[j - 1]);
            if i > 0 {
                assert(run_actions(s, evs)[i] == run_actions(t, rest)[i - 1]);
            } else {
                assert(reported_bytes(run_actions(t, rest)[j - 1]) is Some);
            }
        }
    }
}

/// A restart is asked for only in answer to a successful install, after
/// the download's completion callback has fired.
pub proof fn lemma_restart_needs_completion(s: UpdateController, e: Event)
    ensures
        next_action(s, e) is Restart ==> s.phase == Phase::Downloading && s.download_finished
            && e is Installed && next_state(s, e).phase == Phase::Restarting,
{
}

proof fn lemma_no_restart_after(s: UpdateController, evs: Seq<Event>)
    requires
        s.phase == Phase::Restarting || s.phase == Phase::Finished,
    ensures
        forall|i: int| 0 <= i < evs.len() ==> !(#[trigger] run_actions(s, evs)[i] is Restart),
    decreases evs.len(),
{
    lemma_one_action_per_event(s, evs);
    if evs.len() > 0 {
        let t = next_state(s, evs[0]);
        lemma_no_restart_after(t, evs.drop_first());
        lemma_one_action_per_event(t, evs.drop_first());
        assert forall|i: int| 0 <= i < evs.len() implies !(#[trigger] run_actions(s, evs)[i] is Restart) by {
            if i > 0 {
                assert(run_actions(s, evs)[i] == run_actions(t, evs.drop_first())[i - 1]);
            }
        }
    }
}

/// In one cycle the restart is asked for at most once, and only after a
/// completion event has arrived.
pub proof fn lemma_restart_once_after_completion(s: UpdateController, evs: Seq<Event>)
    requires
        !s.download_finished,
        s.phase != Phase::Restarting,
    ensures
        forall|i: int, j: int|
            0 <= i < j < evs.len() ==> !((#[trigger] run_actions(s, evs)[i] is Restart) && (
            #[trigger] run_actions(s, evs)[j] is Restart)),
        forall|i: int|
            0 <= i < evs.len() && (#[trigger] run_actions(s, evs)[i] is Restart) ==> exists|j: int|
                0 <= j < i && #[trigger] evs[j] is DownloadComplete,
    decreases evs.len(),
{
    lemma_one_action_per_event(s, evs);
    if evs.len() > 0 {
        let t = next_state(s, evs[0]);
        let rest = evs.drop_first();
        lemma_one_action_per_event(t, rest);
        assert(!(run_actions(s, evs)[0] is Restart));
        if t.phase == Phase::Restarting || t.phase == Phase::Finished {
            lemma_no_restart_after(t, rest);
        }
        if !t.download_finished && t.phase != Phase::Restarting {
            lemma_restart_once_after_completion(t, rest);
        }
        assert forall|i: int, j: int|
            0 <= i < j < evs.len() implies !((#[trigger] run_actions(s, evs)[i] is Restart) && (
            #[trigger] run_actions(s, evs)[j] is Restart)) by {
            assert(run_actions(s, evs)[j] == run_actions(t, rest)[j - 1]);
            if i > 0 {
                assert(run_actions(s, evs)[i] == run_actions(t, rest)[i - 1]);
                if t.download_finished && t.phase != Phase::Restarting && t.phase != Phase::Finished {
                    lemma_restart_single_from_finished_download(t, rest);
                }
            }
        }
        assert forall|i: int|
            0 <= i < evs.len() && (#[trigger] run_actions(s, evs)[i] is Restart) implies exists|j: int|
                0 <= j < i && #[trigger] evs[j] is DownloadComplete by {
            assert(run_actions(s, evs)[i] == run_actions(t, rest)[i - 1]);
            if evs[0] is DownloadComplete {
                assert(evs[0] is DownloadComplete);
            } else {
                assert(!t.download_finished);
                let k = choose|k: int| 0 <= k < i - 1 && #[trigger] rest[k] is DownloadComplete;
                assert(evs[k + 1] == rest[k]);
            }
        }
    }
}

proof fn lemma_restart_single_from_finished_download(s: UpdateController, evs: Seq<Event>)
    requires
        s.phase != Phase::Restarting,
    ensures
        forall|i: int, j: int|
            0 <= i < j < evs.len() ==> !((#[trigger] run_actions(s, evs)[i] is Restart) && (
            #[trigger] run_actions(s, evs)[j] is Restart)),
    decreases evs.len(),
{
    lemma_one_action_per_event(s, evs);
    if evs.len() > 0 {
        let t = next_state(s, evs[0]);
        let rest = evs.drop_first();
        lemma_one_action_per_event(t, rest);
        if t.phase == Phase::Restarting || t.phase == Phase::Finished {
            lemma_no_restart_after(t, rest);
        } else {
            lemma_restart_single_from_finished_download(t, rest);
        }
        assert forall|i: int, j: int|
            0 <= i < j < evs.len() implies !((#[trigger] run_actions(s, evs)[i] is Restart) && (
            #[trigger] run_actions(s, evs)[j] is Restart)) by {
            assert(run_actions(s, evs)[j] == run_actions(t, rest)[j - 1]);
            if i > 0 {
                assert(run_actions(s, evs)[i] == run_actions(t, rest)[i - 1]);
            }
        }
    }
}

/// A download that fails before its completion callback fires ends the
/// cycle with a transfer failure, and no restart follows, whatever comes next.
pub proof fn lemma_transfer_failure_no_restart(s: UpdateController, evs: Seq<Event>)
    requires
        s.phase == Phase::Downloading,
        !s.download_finished,
    ensures
        next_action(s, Event::UpdateFailed) == Action::Finish(
            None,
            Err(UpdateError::TransferFailure),
        ),
        forall|i: int|
            0 <= i < evs.len() ==> !(#[trigger] run_actions(
                next_state(s, Event::UpdateFailed),
                evs,
            )[i] is Restart),
{
    lemma_no_restart_after(next_state(s, Event::UpdateFailed), evs);
}

impl UpdateController {
    /// A controller for one invocation, waiting for its trigger.
    pub fn new(policy: UpdateCheckPolicy, mode: PromptMode) -> (r: UpdateController)
        ensures
            r == initial(policy, mode),
    {
        UpdateController {
            policy,
            mode,
            phase: Phase::Ready,
            received: 0,
            total: None,
            download_finished: false,
        }
    }

    /// The cycle has ended: every further event is ignored.
    pub fn is_finished(&self) -> (r: bool)
        ensures
            r == (self.phase == Phase::Finished),
    {
        self.phase == Phase::Finished
    }

    /// Takes one event and returns what the host does next.
    pub fn step(&mut self, e: Event) -> (a: Action)
        ensures
            *final(self) == next_state(*old(self), e),
            a == next_action(*old(self), e),
    {
        match self.phase {
            Phase::Ready => match e {
                Event::Start => {
                    if self.policy.suppressed {
                        self.phase = Phase::Finished;
                        Action::Finish(None, Ok(()))
                    } else {
                        self.phase = Phase::Checking;
                        Action::QuerySource
                    }
                },
                _ => Action::Ignore,
            },
            Phase::Checking => match e {
                Event::Checked(CheckOutcome::NoUpdate) => {
                    self.phase = Phase::Finished;
                    let notice = if self.policy.announce_up_to_date {
                        Some(Notice::UpToDate)
                    } else {
                        None
                    };
                    Action::Finish(notice, Ok(()))
                },
                Event::Checked(CheckOutcome::CheckFailed(reason)) => {
                    self.phase = Phase::Finished;
                    let notice = if self.policy.announce_up_to_date {
                        Some(Notice::CheckFailed(reason))
                    } else {
                        None
                    };
                    Action::Finish(notice, Ok(()))
                },
                Event::Checked(CheckOutcome::UpdateAvailable(d)) => match self.mode {
                    PromptMode::Mandatory => {
                        self.phase = Phase::Prompting;
                        Action::Prompt(d.available_version)
                    },
                    PromptMode::Informational => {
                        self.phase = Phase::Downloading;
                        Action::Download
                    },
                },
                _ => Action::Ignore,
            },
            Phase::Prompting => match e {
                Event::PromptClosed => {
                    self.phase = Phase::Downloading;
                    Action::Download
                },
                _ => Action::Ignore,
            },
            Phase::Downloading => match e {
                Event::Chunk(len, total) => {
                    self.received = add_chunk(self.received, len);
                    if total.is_some() {
                        self.total = total;
                    }
                    Action::Progress(self.received, self.total)
                },
                Event::DownloadComplete => {
                    self.download_finished = true;
                    Action::Ignore
                },
                Event::Installed => {
                    if self.download_finished {
                        self.phase = Phase::Restarting;
                        Action::Restart
                    } else {
                        Action::Ignore
                    }
                },
                Event::UpdateFailed => {
                    self.phase = Phase::Finished;
                    let err = if self.download_finished {
                        UpdateError::InstallFailure
                    } else {
                        UpdateError::TransferFailure
                    };
                    Action::Finish(None, Err(err))
                },
                _ => Action::Ignore,
            },
            Phase::Restarting => match e {
                Event::RestartFailed => {
                    self.phase = Phase::Finished;
                    Action::Finish(None, Err(UpdateError::RestartFailure))
                },
                _ => Action::Ignore,
            },
            Phase::Finished => Action::Ignore,
        }
    }
}

} // verus!

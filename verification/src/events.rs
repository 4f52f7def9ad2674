//! Build lifecycle events reported by the Hydra queue-runner.

use vstd::prelude::*;
use vstd::string::StringExecFns;

use crate::message::{BuildStatus, HydraBuildState};
use crate::text::{append_i64, chars_of, int_decimal, lines_of, split_lines, string_from_chars, trim, trimmed};

verus! {

/// What happened to a build.
#[derive(Debug, PartialEq, Eq)]
pub enum BuildEventKind {
    Queued,
    /// The build runs; `step` says what the builder is doing.
    Running { step: Option<String> },
    Finished { status: BuildStatus },
    /// Events were produced faster than they were read and `dropped` of them
    /// were lost.
    Lagged { dropped: u64 },
}

impl Clone for BuildEventKind {
    fn clone(&self) -> (r: Self)
        ensures
            r == *self,
    {
        match self {
            BuildEventKind::Queued => BuildEventKind::Queued,
            BuildEventKind::Running { step } => BuildEventKind::Running { step: step.clone() },
            BuildEventKind::Finished { status } => BuildEventKind::Finished {
                status: status.clone(),
            },
            BuildEventKind::Lagged { dropped } => BuildEventKind::Lagged { dropped: *dropped },
        }
    }
}

/// An event about build `build_id`, with the builder it landed on once one
/// was assigned.
#[derive(Debug, PartialEq, Eq)]
pub struct BuildEvent {
    pub build_id: i32,
    pub machine: Option<String>,
    pub kind: BuildEventKind,
}

impl Clone for BuildEvent {
    fn clone(&self) -> (r: Self)
        ensures
            r == *self,
    {
        BuildEvent { build_id: self.build_id, machine: self.machine.clone(), kind: self.kind.clone() }
    }
}

/// Whether an event of this kind ends the build.
pub open spec fn is_terminal_kind(kind: BuildEventKind) -> bool {
    kind is Finished
}

/// The state a build is in after an event of this kind. A lag report says
/// nothing of the build and maps to a step-less `Running`.
pub open spec fn state_for(kind: BuildEventKind) -> HydraBuildState {
    match kind {
        BuildEventKind::Queued => HydraBuildState::Queued,
        BuildEventKind::Running { step } => HydraBuildState::Running { step },
        BuildEventKind::Finished { status } => HydraBuildState::Finished { status },
        BuildEventKind::Lagged { .. } => HydraBuildState::Running { step: None },
    }
}

/// Only a finished build ends: an event ends its build exactly when it
/// reports the build finished, whatever its status; being queued, running
/// or a lag report ends nothing.
pub proof fn law_only_finished_events_are_terminal(kind: BuildEventKind)
    ensures
        is_terminal_kind(kind) <==> kind matches BuildEventKind::Finished { .. },
        kind is Queued ==> !is_terminal_kind(kind),
        kind is Running ==> !is_terminal_kind(kind),
        kind is Lagged ==> !is_terminal_kind(kind),
{
}

impl BuildEvent {
    /// Whether the event ends the build: only `Finished` does.
    pub fn is_terminal(&self) -> (r: bool)
        ensures
            r == is_terminal_kind(self.kind),
    {
        match self.kind {
            BuildEventKind::Finished { .. } => true,
            _ => false,
        }
    }
}

/// What a builder is doing during a step, as the queue-runner reports it.
#[derive(Debug, PartialEq, Eq, Clone, Copy)]
pub enum StepStatus {
    Preparing,
    Connecting,
    SeningInputs,
    Building,
    WaitingForLocalSlot,
    ReceivingOutputs,
    PostProcessing,
}

/// The label shown for a step status.
pub open spec fn step_label(s: StepStatus) -> Seq<char> {
    match s {
        StepStatus::Preparing => "Preparing"@,
        StepStatus::Connecting => "Connecting"@,
        StepStatus::SeningInputs => "Sending inputs"@,
        StepStatus::Building => "Building"@,
        StepStatus::WaitingForLocalSlot => "Waiting for a local slot"@,
        StepStatus::ReceivingOutputs => "Receiving outputs"@,
        StepStatus::PostProcessing => "Post-processing"@,
    }
}

/// The label for a step status, `None` for a status the bot does not know.
pub fn step_status_label(step: Option<StepStatus>) -> (r: Option<String>)
    ensures
        match step {
            Some(s) => r matches Some(l) && l@ == step_label(s),
            None => r is None,
        },
{
    let s = match step {
        Some(s) => s,
        None => {
            return None;
        },
    };
    let label = match s {
        StepStatus::Preparing => "Preparing",
        StepStatus::Connecting => "Connecting",
        StepStatus::SeningInputs => "Sending inputs",
        StepStatus::Building => "Building",
        StepStatus::WaitingForLocalSlot => "Waiting for a local slot",
        StepStatus::ReceivingOutputs => "Receiving outputs",
        StepStatus::PostProcessing => "Post-processing",
    };
    Some(label.to_owned())
}

/// How the queue-runner says a build ended. `Other` carries the name of a
/// status that is about what went wrong around the build.
#[derive(Debug, PartialEq, Eq)]
pub enum HydraFinishedStatus {
    Success,
    Failed,
    FailedWithOutput,
    DepFailed,
    CachedFailure,
    TimedOut,
    NotDeterministic,
    Other(String),
}

/// A status code as received: a known status, or an unknown code with the
/// decoder's complaint.
#[derive(Debug, PartialEq, Eq)]
pub enum ReportedStatus {
    Known(HydraFinishedStatus),
    Unknown { code: i32, error: String },
}

/// The bot's build status for a status reported by the queue-runner: the
/// build's own failures are failures, a timeout is a timeout, a
/// nondeterministic build is a hash mismatch, anything else an unexpected
/// error naming what happened.
pub open spec fn is_status_for(r: BuildStatus, s: ReportedStatus) -> bool {
    match s {
        ReportedStatus::Unknown { code, error } => r matches BuildStatus::UnexpectedError { err }
            && err@ == "unknown hydra build status "@ + int_decimal(code as int) + ": "@ + error@,
        ReportedStatus::Known(k) => match k {
            HydraFinishedStatus::Success => r == BuildStatus::Success,
            HydraFinishedStatus::Failed => r == BuildStatus::Failure,
            HydraFinishedStatus::FailedWithOutput => r == BuildStatus::Failure,
            HydraFinishedStatus::DepFailed => r == BuildStatus::Failure,
            HydraFinishedStatus::CachedFailure => r == BuildStatus::Failure,
            HydraFinishedStatus::TimedOut => r == BuildStatus::TimedOut,
            HydraFinishedStatus::NotDeterministic => r == BuildStatus::HashMismatch,
            HydraFinishedStatus::Other(name) => r matches BuildStatus::UnexpectedError { err }
                && err@ == name@,
        },
    }
}

/// How each known outcome the queue-runner reports is shown: a success as
/// a success; a failure of the build, of its output, of a dependency or a
/// cached failure as a failure; a timeout as a timeout; a nondeterministic
/// build as a hash mismatch; any other outcome as an unexpected error
/// naming it. No other outcome is shown as a timeout, a success or a hash
/// mismatch.
pub proof fn law_reported_outcomes_keep_their_meaning(r: BuildStatus, k: HydraFinishedStatus)
    requires
        is_status_for(r, ReportedStatus::Known(k)),
    ensures
        k is Success <==> r is Success,
        k is TimedOut <==> r is TimedOut,
        k is NotDeterministic <==> r is HashMismatch,
        (k is Failed || k is FailedWithOutput || k is DepFailed || k is CachedFailure) <==> r is Failure,
        k matches HydraFinishedStatus::Other(name) ==> (r matches BuildStatus::UnexpectedError { err }
            && err@ == name@),
        r is Skipped ==> false,
{
}

/// Maps a reported status onto the bot's build statuses.
pub fn hydra_build_status_to_status(status: ReportedStatus) -> (r: BuildStatus)
    ensures
        is_status_for(r, status),
{
    match status {
        ReportedStatus::Unknown { code, error } => {
            let mut err = "unknown hydra build status ".to_owned();
            append_i64(&mut err, code as i64);
            err.append(": ");
            err.append(error.as_str());
            BuildStatus::UnexpectedError { err }
        },
        ReportedStatus::Known(k) => match k {
            HydraFinishedStatus::Success => BuildStatus::Success,
            HydraFinishedStatus::Failed => BuildStatus::Failure,
            HydraFinishedStatus::FailedWithOutput => BuildStatus::Failure,
            HydraFinishedStatus::DepFailed => BuildStatus::Failure,
            HydraFinishedStatus::CachedFailure => BuildStatus::Failure,
            HydraFinishedStatus::TimedOut => BuildStatus::TimedOut,
            HydraFinishedStatus::NotDeterministic => BuildStatus::HashMismatch,
            HydraFinishedStatus::Other(name) => BuildStatus::UnexpectedError { err: name },
        },
    }
}

/// An event as the queue-runner sends it.
#[derive(Debug, PartialEq, Eq)]
pub enum RunnerEvent {
    Queued,
    Running { machine: String, step_status: Option<StepStatus> },
    Finished { machine: String, status: ReportedStatus },
    Lagged { dropped: u64 },
}

/// The machine of an event: none when the queue-runner sent an empty name.
pub open spec fn machine_of(m: Option<String>) -> Option<String> {
    match m {
        Some(x) => if x@.len() == 0 {
            None
        } else {
            Some(x)
        },
        None => None,
    }
}

/// Converts an event of the queue-runner about build `build_id`; an event
/// without a variant is refused.
pub fn convert_build_event(build_id: i32, event: Option<RunnerEvent>) -> (r: Result<BuildEvent, String>)
    ensures
        match event {
            None => r matches Err(e) && e@ == "BuildEvent without an event variant"@,
            Some(RunnerEvent::Queued) => r == Ok::<BuildEvent, String>(
                BuildEvent { build_id, machine: None, kind: BuildEventKind::Queued },
            ),
            Some(RunnerEvent::Running { machine, step_status }) => r matches Ok(e) && e.build_id
                == build_id && e.machine == machine_of(Some(machine)) && (e.kind matches BuildEventKind::Running { step } && match step_status {
                Some(s) => step matches Some(l) && l@ == step_label(s),
                None => step is None,
            }),
            Some(RunnerEvent::Finished { machine, status }) => r matches Ok(e) && e.build_id
                == build_id && e.machine == machine_of(Some(machine)) && (e.kind matches BuildEventKind::Finished { status: s } && is_status_for(s, status)),
            Some(RunnerEvent::Lagged { dropped }) => r == Ok::<BuildEvent, String>(
                BuildEvent { build_id, machine: None, kind: BuildEventKind::Lagged { dropped } },
            ),
        },
{
    let inner = match event {
        Some(e) => e,
        None => {
            return Err("BuildEvent without an event variant".to_owned());
        },
    };
    let (machine, kind) = match inner {
        RunnerEvent::Queued => (None, BuildEventKind::Queued),
        RunnerEvent::Running { machine, step_status } => (
            Some(machine),
            BuildEventKind::Running { step: step_status_label(step_status) },
        ),
        RunnerEvent::Finished { machine, status } => (
            Some(machine),
            BuildEventKind::Finished { status: hydra_build_status_to_status(status) },
        ),
        RunnerEvent::Lagged { dropped } => (None, BuildEventKind::Lagged { dropped }),
    };
    let machine = match machine {
        Some(m) => if m.as_str().is_empty() {
            None
        } else {
            Some(m)
        },
        None => None,
    };
    Ok(BuildEvent { build_id, machine, kind })
}

/// The lines of a replay file that hold events: each line trimmed, blank
/// lines and lines starting with `#` left out.
pub open spec fn is_event_line(line: Seq<char>) -> bool {
    line.len() > 0 && line[0] != '#'
}

/// The event lines of a replay file with content `contents`, in order:
/// its lines, trimmed, that are neither blank nor comments.
pub fn replay_lines(contents: &str) -> (r: Vec<String>)
    ensures
        r@.map_values(|l: String| l@) == lines_of(contents@).map_values(|l: Seq<char>| trimmed(l)).filter(
            |l: Seq<char>| is_event_line(l),
        ),
{
    let chars = chars_of(contents);
    let lines = split_lines(&chars);
    let ghost all = lines_of(contents@).map_values(|l: Seq<char>| trimmed(l));
    let mut r: Vec<String> = Vec::new();
    let mut k: usize = 0;
    while k < lines.len()
        invariant
            k <= lines.len(),
            lines@.map_values(|l: Vec<char>| l@) == lines_of(contents@),
            all == lines_of(contents@).map_values(|l: Seq<char>| trimmed(l)),
            r@.map_values(|l: String| l@) == all.take(k as int).filter(|l: Seq<char>| is_event_line(l)),
        decreases lines.len() - k,
    {
        let text = string_from_chars(lines[k].as_slice());
        let line = trim(text.as_str());
        assert(line@ == all[k as int]);
        assert(all.take(k + 1).drop_last() =~= all.take(k as int));
        let keep = {
            let c = chars_of(line.as_str());
            c.len() > 0 && c[0] != '#'
        };
        let ghost before = r@.map_values(|l: String| l@);
        if keep {
            r.push(line);
            assert(r@.map_values(|l: String| l@) =~= before.push(all[k as int]));
        }
        assert(all.take(k + 1).filter(|l: Seq<char>| is_event_line(l)) == (if is_event_line(all[k as int]) {
            all.take(k as int).filter(|l: Seq<char>| is_event_line(l)).push(all[k as int])
        } else {
            all.take(k as int).filter(|l: Seq<char>| is_event_line(l))
        })) by {
            all.take(k as int).lemma_filter_push(all[k as int], |l: Seq<char>| is_event_line(l));
            assert(all.take(k as int).push(all[k as int]) =~= all.take(k + 1));
        }
        k = k + 1;
    }
    assert(all.take(k as int) =~= all);
    r
}

} // verus!

//! Process-supervision decisions: the state machine that drives one
//! download-class operation through spawning, progress streaming, a single
//! reduced-argument retry, and cancellation. The supervisor decides; the
//! thin outer layer spawns processes, feeds lines and exit statuses back in,
//! and performs the actions.

use vstd::prelude::*;
use crate::commands::views_of;
use crate::errors::OrchestratorError;
use crate::progress::{parse_progress_line, spec_progress_of_line, ProgressKind};
use crate::strutil::u64_to_dec;

verus! {

/// Phase of a progress event.
#[derive(Debug, Clone, Copy, PartialEq, Eq, Structural)]
pub enum Phase {
    Queued,
    Downloading,
    Processing,
    Completed,
    Error,
}

/// One observation delivered to the UI, fire-and-forget. The percentage is
/// in thousandths of a percent.
#[derive(Debug, Clone)]
pub struct ProgressEvent {
    pub percent_milli: u64,
    pub message: String,
    pub phase: Phase,
}

/// The supervisor's state for one operation. `attempt` counts spawns:
/// attempt 0 is the first run, attempt 1 the single reduced retry.
/// `last_diag` keeps the latest non-progress output line for error
/// reporting.
#[derive(Debug, Clone)]
pub enum SupervisorState {
    Idle,
    Running { attempt: u64, last_diag: Option<String> },
    Succeeded,
    Failed { diag: Option<String> },
}

/// What the caller must do after handing an exit status in.
#[derive(Debug, Clone)]
pub enum ExitDirective {
    /// The process succeeded: proceed to artifact discovery.
    Proceed,
    /// The first attempt failed: respawn once with the reduced argument
    /// set.
    RetryReduced,
    /// The retry failed too: surface this terminal error.
    Surface(OrchestratorError),
}

/// The state after an exit event: success ends the operation; the first
/// failure moves to the retry attempt, keeping the diagnostic; a second
/// failure is terminal.
pub open spec fn spec_after_exit(st: SupervisorState, ok: bool) -> SupervisorState {
    match st {
        SupervisorState::Running { attempt, last_diag } => {
            if ok {
                SupervisorState::Succeeded
            } else if attempt == 0 {
                SupervisorState::Running { attempt: 1, last_diag }
            } else {
                SupervisorState::Failed { diag: last_diag }
            }
        },
        _ => st,
    }
}

/// An exit event emits an error-phase progress event exactly when it is a
/// failure with the retry already spent.
pub open spec fn spec_exit_emits_error(st: SupervisorState, ok: bool) -> bool {
    match st {
        SupervisorState::Running { attempt, .. } => !ok && attempt >= 1,
        _ => false,
    }
}

impl SupervisorState {
    /// Begins one download-class operation: the state enters its first
    /// attempt, and a zero-percent event announces the download phase.
    pub fn start() -> (r: (SupervisorState, ProgressEvent))
        ensures
            r.0 == (SupervisorState::Running { attempt: 0u64, last_diag: Option::None }),
            r.1.percent_milli == 0,
            r.1.message@ == "Starting download"@,
            r.1.phase == Phase::Downloading,
    {
        (
            SupervisorState::Running { attempt: 0, last_diag: None },
            ProgressEvent {
                percent_milli: 0,
                message: "Starting download".to_owned(),
                phase: Phase::Downloading,
            },
        )
    }

    /// Consumes one line of the running process's output, in the order the
    /// tool produced it. A line matching one of the two progress templates
    /// becomes a download- or processing-phase event and is not retained;
    /// any other line replaces the kept diagnostic and emits nothing.
    pub fn on_line(self, line: &str) -> (r: (SupervisorState, Option<ProgressEvent>))
        requires
            self is Running,
        ensures
            match spec_progress_of_line(line@) {
                Some(pk) => {
                    &&& r.0 == self
                    &&& r.1 is Some
                    &&& r.1->0.percent_milli == pk.0
                    &&& (pk.1 == ProgressKind::Download ==> r.1->0.message@ == "Downloading..."@
                        && r.1->0.phase == Phase::Downloading)
                    &&& (pk.1 == ProgressKind::Postprocess ==> r.1->0.message@ == "Processing..."@
                        && r.1->0.phase == Phase::Processing)
                },
                None => {
                    &&& r.0 is Running
                    &&& r.0->Running_attempt == self->Running_attempt
                    &&& r.0->Running_last_diag is Some
                    &&& r.0->Running_last_diag->0@ == line@
                    &&& r.1 is None
                },
            },
            !(r.1 is Some && r.1->0.phase == Phase::Error),
    {
        match parse_progress_line(line) {
            Some((pm, kind)) => {
                let ev = match kind {
                    ProgressKind::Download => ProgressEvent {
                        percent_milli: pm,
                        message: "Downloading...".to_owned(),
                        phase: Phase::Downloading,
                    },
                    ProgressKind::Postprocess => ProgressEvent {
                        percent_milli: pm,
                        message: "Processing...".to_owned(),
                        phase: Phase::Processing,
                    },
                };
                (self, Some(ev))
            },
            None => {
                let attempt = match &self {
                    SupervisorState::Running { attempt, .. } => *attempt,
                    _ => 0,
                };
                (
                    SupervisorState::Running {
                        attempt,
                        last_diag: Some(line.to_owned()),
                    },
                    None,
                )
            },
        }
    }

    /// Consumes the process's exit status. Success proceeds to artifact
    /// discovery with a completion event. The first failure directs one
    /// retry with the reduced argument set and emits nothing. A failure
    /// with the retry spent surfaces the kept diagnostic (or a generic
    /// message when none was captured) and emits the only error-phase
    /// event this machine ever produces.
    pub fn on_exit(self, ok: bool) -> (r: (
        SupervisorState,
        ExitDirective,
        Option<ProgressEvent>,
    ))
        requires
            self is Running,
        ensures
            r.0 == spec_after_exit(self, ok),
            ok ==> r.1 is Proceed && r.2 is Some && r.2->0.percent_milli == 100000 && r.2->0.message@
                == "Download completed"@ && r.2->0.phase == Phase::Completed,
            !ok && self->Running_attempt == 0 ==> r.1 is RetryReduced && r.2 is None,
            !ok && self->Running_attempt >= 1 ==> {
                &&& r.1 is Surface
                &&& r.1->Surface_0 is ExternalToolFailure
                &&& (match self->Running_last_diag {
                    Some(d) => r.1->Surface_0->ExternalToolFailure_0@ == d@,
                    None => r.1->Surface_0->ExternalToolFailure_0@
                        == "External tool failed with no diagnostic output"@,
                })
                &&& r.2 is Some
                &&& r.2->0.phase == Phase::Error
                &&& r.2->0.percent_milli == 0
                &&& r.2->0.message@ == r.1->Surface_0->ExternalToolFailure_0@
            },
            (r.2 is Some && r.2->0.phase == Phase::Error) == spec_exit_emits_error(self, ok),
    {
        match self {
            SupervisorState::Running { attempt, last_diag } => {
                if ok {
                    let ev = ProgressEvent {
                        percent_milli: 100000,
                        message: "Download completed".to_owned(),
                        phase: Phase::Completed,
                    };
                    (SupervisorState::Succeeded, ExitDirective::Proceed, Some(ev))
                } else if attempt == 0 {
                    (
                        SupervisorState::Running { attempt: 1, last_diag },
                        ExitDirective::RetryReduced,
                        None,
                    )
                } else {
                    let msg = match &last_diag {
                        Some(d) => d.clone(),
                        None => "External tool failed with no diagnostic output".to_owned(),
                    };
                    let ev = ProgressEvent {
                        percent_milli: 0,
                        message: msg.clone(),
                        phase: Phase::Error,
                    };
                    (
                        SupervisorState::Failed { diag: last_diag },
                        ExitDirective::Surface(OrchestratorError::ExternalToolFailure(msg)),
                        Some(ev),
                    )
                }
            },
            _ => {
                // unreachable under the precondition
                (self, ExitDirective::Proceed, None)
            },
        }
    }
}

/// A failed first attempt followed by a successful retry ends the operation
/// in success, and neither exit emits an error-phase event; output lines
/// never emit error-phase events at all, so such an operation reports no
/// error to its observer.
pub proof fn lemma_failure_then_successful_retry(st: SupervisorState)
    requires
        st is Running,
        st->Running_attempt == 0,
    ensures
        spec_after_exit(spec_after_exit(st, false), true) is Succeeded,
        !spec_exit_emits_error(st, false),
        !spec_exit_emits_error(spec_after_exit(st, false), true),
{
}

/// The cancellation plan for a stop request, from the tracked process
/// identifier (zero or negative when no process is tracked). A targeted
/// kill is requested exactly for a tracked identifier; the defensive
/// cleanup of lingering tool processes runs in every case, so a stop
/// request is never a no-op.
#[derive(Debug, Clone, PartialEq, Eq, Structural)]
pub struct StopPlan {
    pub kill_pid: Option<i64>,
    pub cleanup: bool,
}

/// Decides what a stop request must do.
pub fn plan_stop(current_pid: i64) -> (r: StopPlan)
    ensures
        current_pid <= 0 ==> r.kill_pid is None,
        current_pid > 0 ==> r.kill_pid == Some(current_pid),
        r.cleanup,
{
    if current_pid > 0 {
        StopPlan { kill_pid: Some(current_pid), cleanup: true }
    } else {
        StopPlan { kill_pid: None, cleanup: true }
    }
}

/// The targeted termination command for one process tree.
pub open spec fn spec_kill_args(windows: bool, pid: int) -> Seq<Seq<char>> {
    if windows {
        seq!["/PID"@, crate::strutil::dec_rep(pid), "/T"@, "/F"@]
    } else {
        seq!["-TERM"@, crate::strutil::dec_rep(pid)]
    }
}

/// The program that serves the targeted termination.
pub open spec fn spec_kill_program(windows: bool) -> Seq<char> {
    if windows {
        "taskkill"@
    } else {
        "kill"@
    }
}

/// Builds the targeted termination command for a tracked process.
pub fn build_kill_command(windows: bool, pid: i64) -> (r: (String, Vec<String>))
    requires
        pid > 0,
    ensures
        r.0@ == spec_kill_program(windows),
        views_of(r.1@) == spec_kill_args(windows, pid as int),
{
    let mut args: Vec<String> = Vec::new();
    if windows {
        args.push("/PID".to_owned());
        args.push(u64_to_dec(pid as u64));
        args.push("/T".to_owned());
        args.push("/F".to_owned());
        proof {
            assert(views_of(args@) =~= spec_kill_args(true, pid as int));
        }
        ("taskkill".to_owned(), args)
    } else {
        args.push("-TERM".to_owned());
        args.push(u64_to_dec(pid as u64));
        proof {
            assert(views_of(args@) =~= spec_kill_args(false, pid as int));
        }
        ("kill".to_owned(), args)
    }
}

/// Builds the defensive-cleanup commands that run on every stop request and
/// before every fresh spawn, covering lingering transcoder images: one
/// forced image kill on Windows, a forced and a plain pattern kill
/// elsewhere.
pub fn build_cleanup_commands(windows: bool) -> (r: Vec<(String, Vec<String>)>)
    ensures
        windows ==> {
            &&& r@.len() == 1
            &&& r@[0].0@ == "taskkill"@
            &&& views_of(r@[0].1@) == seq!["/F"@, "/IM"@, "ffmpeg.exe"@]
        },
        !windows ==> {
            &&& r@.len() == 2
            &&& r@[0].0@ == "pkill"@
            &&& views_of(r@[0].1@) == seq!["-9"@, "-f"@, "ffmpeg"@]
            &&& r@[1].0@ == "pkill"@
            &&& views_of(r@[1].1@) == seq!["-f"@, "ffmpeg"@]
        },
{
    let mut r: Vec<(String, Vec<String>)> = Vec::new();
    if windows {
        let mut a: Vec<String> = Vec::new();
        a.push("/F".to_owned());
        a.push("/IM".to_owned());
        a.push("ffmpeg.exe".to_owned());
        proof {
            assert(views_of(a@) =~= seq!["/F"@, "/IM"@, "ffmpeg.exe"@]);
        }
        r.push(("taskkill".to_owned(), a));
    } else {
        let mut a: Vec<String> = Vec::new();
        a.push("-9".to_owned());
        a.push("-f".to_owned());
        a.push("ffmpeg".to_owned());
        proof {
            assert(views_of(a@) =~= seq!["-9"@, "-f"@, "ffmpeg"@]);
        }
        r.push(("pkill".to_owned(), a));
        let mut b: Vec<String> = Vec::new();
        b.push("-f".to_owned());
        b.push("ffmpeg".to_owned());
        proof {
            assert(views_of(b@) =~= seq!["-f"@, "ffmpeg"@]);
        }
        r.push(("pkill".to_owned(), b));
    }
    r
}

/// The single tracked-process slot supporting cancellation: at most one
/// download-class process is tracked at a time. Zero means empty. This
/// type specifies the slot's transitions exactly; an outer layer that
/// needs the clear to race a concurrent completion realizes the same
/// set/clear protocol on an atomic primitive instead, as the concurrency
/// model calls for, and this type stands as its specification.
#[derive(Debug, Clone, PartialEq, Eq, Structural)]
pub struct ProcessSlot {
    pid: i64,
}

impl ProcessSlot {
    /// The tracked identifier, or zero when empty.
    pub closed spec fn spec_pid(self) -> i64 {
        self.pid
    }

    /// A fresh, empty slot.
    pub fn new() -> (r: ProcessSlot)
        ensures
            r.spec_pid() == 0,
    {
        ProcessSlot { pid: 0 }
    }

    /// Records a freshly spawned process.
    pub fn set(&mut self, pid: i64)
        requires
            pid > 0,
        ensures
            final(self).spec_pid() == pid,
    {
        self.pid = pid;
    }

    /// Clears the slot and hands the previous occupant out; the caller
    /// treats zero as "nothing was tracked". Clearing an already-empty
    /// slot is harmless, as a cancellation may race normal completion.
    pub fn take(&mut self) -> (r: i64)
        ensures
            final(self).spec_pid() == 0,
            r == old(self).spec_pid(),
    {
        let p = self.pid;
        self.pid = 0;
        p
    }

    /// Reads the tracked identifier without clearing it.
    pub fn current(&self) -> (r: i64)
        ensures
            r == self.spec_pid(),
    {
        self.pid
    }
}

} // verus!

//! Stopping the daemon.
//!
//! What stopping does next is a function of what has happened so far. Nothing
//! is removed and nothing is killed on a guess: the daemon is asked over its
//! own socket, its exit is watched before it is asked, and only time that has
//! run out leads to a signal.

use vstd::prelude::*;

use crate::constants;
use crate::error::{MainError, MainErrorView};
use crate::mq_protocol::{MQResponse, MQResponseView};
use crate::process_exit::{WaitOutcome, WatchState};
use crate::text;
use crate::workdirs;

verus! {

/// How long the daemon may take to stop when asked, in milliseconds.
pub const MQ_STOP_GRACE_TIMEOUT_MS: u64 = 30_000;

/// How long the daemon may take to be gone when killed, in milliseconds.
pub const MQ_STOP_KILL_TIMEOUT_MS: u64 = 5_000;

/// What is said before a signal is sent.
pub const STOP_TIMEOUT_WARNING: &'static str =
    "Timeout waiting for daemon to stop, sending SIGKILL...";

/// Why a signal could not be sent.
#[derive(Debug)]
pub struct KillFailure {
    /// Whether the process does not exist.
    pub no_such_process: bool,
    pub reason: String,
}

/// What has happened while stopping.
#[derive(Debug)]
pub struct StopHistory {
    /// The daemon's runtime directory.
    pub runtime_dir: Option<Result<Option<String>, MainError>>,
    /// The content of its PID file.
    pub pid_file: Option<Result<String, String>>,
    /// Its answer to a greeting.
    pub hello: Option<Result<MQResponse, String>>,
    /// Whether its exit is watched.
    pub watch: Option<Result<WatchState, String>>,
    /// Its answer to the request to stop.
    pub shutdown: Option<Result<MQResponse, String>>,
    /// Whether it exited in the time it was given.
    pub grace: Option<Result<WaitOutcome, String>>,
    /// Whether it had exited when that time was over.
    pub recheck: Option<Result<WaitOutcome, String>>,
    /// Whether it could be killed.
    pub kill: Option<Result<(), KillFailure>>,
    /// Whether it exited when killed.
    pub killed: Option<Result<WaitOutcome, String>>,
    /// Whether its runtime directory could be removed.
    pub removed: Option<Result<(), MainError>>,
}

/// What stopping does next.
#[derive(Debug)]
pub enum StopStep {
    FindRuntimeDir,
    ReadPid { path: String },
    SendHello { socket: String },
    /// Watch for the exit of the process.
    Arm { pid: i32 },
    SendShutdown { socket: String, pid: i32 },
    WaitGrace,
    Recheck,
    Kill { pid: i32 },
    WaitKilled,
    /// Remove the runtime directory, if its PID file still names the process.
    RemoveIfPid { dir: String, pid: i32, message: Option<String> },
    Done { message: Option<String> },
    Fail(MainError),
}

/// What a [`StopStep`] holds.
pub enum StopStepView {
    FindRuntimeDir,
    ReadPid { path: Seq<char> },
    SendHello { socket: Seq<char> },
    Arm { pid: i32 },
    SendShutdown { socket: Seq<char>, pid: i32 },
    WaitGrace,
    Recheck,
    Kill { pid: i32 },
    WaitKilled,
    RemoveIfPid { dir: Seq<char>, pid: i32, message: Option<Seq<char>> },
    Done { message: Option<Seq<char>> },
    Fail(MainErrorView),
}

impl View for StopStep {
    type V = StopStepView;

    open spec fn view(&self) -> StopStepView {
        match *self {
            StopStep::FindRuntimeDir => StopStepView::FindRuntimeDir,
            StopStep::ReadPid { path } => StopStepView::ReadPid { path: path@ },
            StopStep::SendHello { socket } => StopStepView::SendHello { socket: socket@ },
            StopStep::Arm { pid } => StopStepView::Arm { pid },
            StopStep::SendShutdown { socket, pid } => StopStepView::SendShutdown {
                socket: socket@,
                pid,
            },
            StopStep::WaitGrace => StopStepView::WaitGrace,
            StopStep::Recheck => StopStepView::Recheck,
            StopStep::Kill { pid } => StopStepView::Kill { pid },
            StopStep::WaitKilled => StopStepView::WaitKilled,
            StopStep::RemoveIfPid { dir, pid, message } => StopStepView::RemoveIfPid {
                dir: dir@,
                pid,
                message: message.deep_view(),
            },
            StopStep::Done { message } => StopStepView::Done { message: message.deep_view() },
            StopStep::Fail(e) => StopStepView::Fail(e@),
        }
    }
}

/// An error of process control.
pub open spec fn control_failed(operation: Seq<char>, reason: Seq<char>) -> StopStepView {
    StopStepView::Fail(MainErrorView::ProcessControl { operation, reason })
}

fn fail_control(operation: &str, reason: &str) -> (res: StopStep)
    ensures
        res@ == control_failed(operation@, reason@),
{
    StopStep::Fail(
        MainError::ProcessControl { operation: operation.to_owned(), reason: reason.to_owned() },
    )
}

/// A file of the runtime directory.
pub open spec fn runtime_file(dir: Seq<char>, name: Seq<char>) -> Seq<char> {
    text::joined_path(dir, name)
}

/// The process that the content of a PID file names.
pub open spec fn recorded_pid(content: Seq<char>) -> Option<i32> {
    let s = text::trimmed(content);
    if workdirs::is_pid(s) {
        Some(text::natural(s, i32::MAX as nat)->0 as i32)
    } else {
        None
    }
}

/// The process that the content of a PID file names.
pub fn read_pid(content: &str) -> (res: Option<i32>)
    ensures
        res == recorded_pid(content@),
        res matches Some(pid) ==> pid > 0,
{
    workdirs::parse_pid(text::trim(content).as_str())
}

/// The end, once the directory was removed.
pub open spec fn removal(
    dir: Seq<char>,
    pid: i32,
    message: Option<Seq<char>>,
    after: Option<Seq<char>>,
    h: StopHistory,
) -> StopStepView {
    match h.removed {
        None => StopStepView::RemoveIfPid { dir, pid, message },
        Some(Err(e)) => StopStepView::Fail(e@),
        Some(Ok(_)) => StopStepView::Done { message: after },
    }
}

/// What follows once the daemon did not exit in time.
pub open spec fn forced(dir: Seq<char>, pid: i32, h: StopHistory) -> StopStepView {
    match h.kill {
        None => StopStepView::Kill { pid },
        Some(result) => if result is Err && !result->Err_0.no_such_process {
            control_failed("send SIGKILL to daemon"@, result->Err_0.reason@)
        } else {
            match h.killed {
                None => StopStepView::WaitKilled,
                Some(Err(e)) => control_failed("wait for force-killed daemon"@, e@),
                Some(Ok(WaitOutcome::TimedOut)) => control_failed(
                    "wait for force-killed daemon"@,
                    "daemon remained alive after SIGKILL"@,
                ),
                Some(Ok(WaitOutcome::Exited)) => removal(
                    dir,
                    pid,
                    None,
                    Some("Daemon forcefully terminated"@),
                    h,
                ),
            }
        },
    }
}

/// What follows once the daemon has agreed to stop.
pub open spec fn agreed(dir: Seq<char>, pid: i32, h: StopHistory) -> StopStepView {
    match h.grace {
        None => StopStepView::WaitGrace,
        Some(Err(e)) => control_failed("wait for daemon exit"@, e@),
        Some(Ok(WaitOutcome::Exited)) => StopStepView::Done {
            message: Some("Daemon stopped successfully"@),
        },
        Some(Ok(WaitOutcome::TimedOut)) => match h.recheck {
            None => StopStepView::Recheck,
            Some(Err(e)) => control_failed("recheck daemon exit"@, e@),
            Some(Ok(WaitOutcome::Exited)) => StopStepView::Done {
                message: Some("Daemon stopped successfully"@),
            },
            Some(Ok(WaitOutcome::TimedOut)) => forced(dir, pid, h),
        },
    }
}

/// What follows once the daemon's exit is watched.
pub open spec fn watched(dir: Seq<char>, pid: i32, h: StopHistory) -> StopStepView {
    match h.shutdown {
        None => StopStepView::SendShutdown {
            socket: runtime_file(dir, constants::MQ_SOCK_FILENAME@),
            pid,
        },
        Some(Err(e)) => control_failed("request daemon shutdown"@, e@),
        Some(Ok(response)) => match response@ {
            MQResponseView::ShutdownAck { pid: other } => if other == pid {
                agreed(dir, pid, h)
            } else {
                control_failed(
                    "verify shutdown responder"@,
                    "daemon socket PID does not match mq.pid"@,
                )
            },
            _ => StopStepView::Fail(MainErrorView::CommunicationFailed),
        },
    }
}

/// What follows once the recorded process is known: it must answer for itself.
/// One that cannot answer is either gone, and is cleaned up after, or is not
/// touched.
pub open spec fn recorded(dir: Seq<char>, pid: i32, h: StopHistory) -> StopStepView {
    match h.hello {
        None => StopStepView::SendHello {
            socket: runtime_file(dir, constants::MQ_SOCK_FILENAME@),
        },
        Some(Err(message)) => match h.watch {
            None => StopStepView::Arm { pid },
            Some(Err(e)) => control_failed("observe stale daemon PID"@, e@),
            Some(Ok(WatchState::AlreadyExited)) => removal(
                dir,
                pid,
                Some("Process not running, cleaning up"@),
                None,
                h,
            ),
            Some(Ok(WatchState::Watching)) => control_failed(
                "verify daemon identity"@,
                message@,
            ),
        },
        Some(Ok(response)) => match response@ {
            MQResponseView::HelloAck { pid: other } => if other != pid {
                control_failed(
                    "verify daemon identity"@,
                    "daemon socket PID does not match mq.pid"@,
                )
            } else {
                match h.watch {
                    None => StopStepView::Arm { pid },
                    Some(Err(e)) => control_failed("observe daemon exit"@, e@),
                    Some(Ok(WatchState::AlreadyExited)) => removal(
                        dir,
                        pid,
                        Some("Process not running, cleaning up"@),
                        None,
                        h,
                    ),
                    Some(Ok(WatchState::Watching)) => watched(dir, pid, h),
                }
            },
            _ => StopStepView::Fail(MainErrorView::CommunicationFailed),
        },
    }
}

/// What stopping does next.
pub open spec fn stop_step(h: StopHistory) -> StopStepView {
    match h.runtime_dir {
        None => StopStepView::FindRuntimeDir,
        Some(Err(e)) => StopStepView::Fail(e@),
        Some(Ok(None)) => StopStepView::Done {
            message: Some("Merge queue daemon is not running for this project"@),
        },
        Some(Ok(Some(dir))) => match h.pid_file {
            None => StopStepView::ReadPid {
                path: runtime_file(dir@, constants::MQ_PID_FILENAME@),
            },
            Some(Err(e)) => control_failed("read daemon PID"@, e@),
            Some(Ok(content)) => match recorded_pid(content@) {
                None => control_failed(
                    "validate daemon PID"@,
                    "daemon PID must be a positive platform process ID"@,
                ),
                Some(pid) => recorded(dir@, pid, h),
            },
        },
    }
}

fn remove_runtime(
    dir: &str,
    pid: i32,
    message: Option<&str>,
    after: Option<&str>,
    h: &StopHistory,
) -> (res: StopStep)
    ensures
        res@ == removal(
            dir@,
            pid,
            match message {
                Some(m) => Some(m@),
                None => None,
            },
            match after {
                Some(m) => Some(m@),
                None => None,
            },
            *h,
        ),
{
    match &h.removed {
        None => StopStep::RemoveIfPid {
            dir: dir.to_owned(),
            pid,
            message: match message {
                Some(m) => Some(m.to_owned()),
                None => None,
            },
        },
        Some(Err(e)) => StopStep::Fail(e.clone()),
        Some(Ok(_)) => StopStep::Done {
            message: match after {
                Some(m) => Some(m.to_owned()),
                None => None,
            },
        },
    }
}

fn force(dir: &str, pid: i32, h: &StopHistory) -> (res: StopStep)
    ensures
        res@ == forced(dir@, pid, *h),
{
    match &h.kill {
        None => return StopStep::Kill { pid },
        Some(Err(failure)) => {
            if !failure.no_such_process {
                return fail_control("send SIGKILL to daemon", failure.reason.as_str());
            }
        },
        Some(Ok(_)) => {},
    }
    match &h.killed {
        None => StopStep::WaitKilled,
        Some(Err(e)) => fail_control("wait for force-killed daemon", e.as_str()),
        Some(Ok(WaitOutcome::TimedOut)) => fail_control(
            "wait for force-killed daemon",
            "daemon remained alive after SIGKILL",
        ),
        Some(Ok(WaitOutcome::Exited)) => remove_runtime(
            dir,
            pid,
            None,
            Some("Daemon forcefully terminated"),
            h,
        ),
    }
}

fn after_agreement(dir: &str, pid: i32, h: &StopHistory) -> (res: StopStep)
    ensures
        res@ == agreed(dir@, pid, *h),
{
    match &h.grace {
        None => return StopStep::WaitGrace,
        Some(Err(e)) => return fail_control("wait for daemon exit", e.as_str()),
        Some(Ok(WaitOutcome::Exited)) => {
            return StopStep::Done { message: Some("Daemon stopped successfully".to_owned()) };
        },
        Some(Ok(WaitOutcome::TimedOut)) => {},
    }
    match &h.recheck {
        None => StopStep::Recheck,
        Some(Err(e)) => fail_control("recheck daemon exit", e.as_str()),
        Some(Ok(WaitOutcome::Exited)) => StopStep::Done {
            message: Some("Daemon stopped successfully".to_owned()),
        },
        Some(Ok(WaitOutcome::TimedOut)) => force(dir, pid, h),
    }
}

fn after_watch(dir: &str, pid: i32, h: &StopHistory) -> (res: StopStep)
    ensures
        res@ == watched(dir@, pid, *h),
{
    match &h.shutdown {
        None => StopStep::SendShutdown {
            socket: text::join_path(dir, constants::MQ_SOCK_FILENAME),
            pid,
        },
        Some(Err(e)) => fail_control("request daemon shutdown", e.as_str()),
        Some(Ok(MQResponse::ShutdownAck { pid: other })) => {
            if *other == pid {
                after_agreement(dir, pid, h)
            } else {
                fail_control(
                    "verify shutdown responder",
                    "daemon socket PID does not match mq.pid",
                )
            }
        },
        Some(Ok(_)) => StopStep::Fail(MainError::CommunicationFailed),
    }
}

fn after_pid(dir: &str, pid: i32, h: &StopHistory) -> (res: StopStep)
    ensures
        res@ == recorded(dir@, pid, *h),
{
    match &h.hello {
        None => StopStep::SendHello { socket: text::join_path(dir, constants::MQ_SOCK_FILENAME) },
        Some(Err(message)) => match &h.watch {
            None => StopStep::Arm { pid },
            Some(Err(e)) => fail_control("observe stale daemon PID", e.as_str()),
            Some(Ok(WatchState::AlreadyExited)) => remove_runtime(
                dir,
                pid,
                Some("Process not running, cleaning up"),
                None,
                h,
            ),
            Some(Ok(WatchState::Watching)) => fail_control(
                "verify daemon identity",
                message.as_str(),
            ),
        },
        Some(Ok(MQResponse::HelloAck { pid: other })) => {
            if *other != pid {
                return fail_control(
                    "verify daemon identity",
                    "daemon socket PID does not match mq.pid",
                );
            }
            match &h.watch {
                None => StopStep::Arm { pid },
                Some(Err(e)) => fail_control("observe daemon exit", e.as_str()),
                Some(Ok(WatchState::AlreadyExited)) => remove_runtime(
                    dir,
                    pid,
                    Some("Process not running, cleaning up"),
                    None,
                    h,
                ),
                Some(Ok(WatchState::Watching)) => after_watch(dir, pid, h),
            }
        },
        Some(Ok(_)) => StopStep::Fail(MainError::CommunicationFailed),
    }
}

/// What stopping does next, given what has happened so far.
pub fn stop_daemon(h: &StopHistory) -> (res: StopStep)
    ensures
        res@ == stop_step(*h),
{
    let dir = match &h.runtime_dir {
        None => return StopStep::FindRuntimeDir,
        Some(Err(e)) => return StopStep::Fail(e.clone()),
        Some(Ok(None)) => {
            return StopStep::Done {
                message: Some("Merge queue daemon is not running for this project".to_owned()),
            };
        },
        Some(Ok(Some(dir))) => dir,
    };
    let content = match &h.pid_file {
        None => {
            return StopStep::ReadPid {
                path: text::join_path(dir.as_str(), constants::MQ_PID_FILENAME),
            };
        },
        Some(Err(e)) => return fail_control("read daemon PID", e.as_str()),
        Some(Ok(content)) => content,
    };
    match read_pid(content.as_str()) {
        None => fail_control(
            "validate daemon PID",
            "daemon PID must be a positive platform process ID",
        ),
        Some(pid) => after_pid(dir.as_str(), pid, h),
    }
}

/// How long to wait, in milliseconds: the default, unless a debug build was
/// given another number.
pub fn mq_stop_timeout(debug_build: bool, value: Option<&str>, default_ms: u64) -> (res: u64)
    ensures
        match value {
            Some(v) => if debug_build && text::natural(v@, u64::MAX as nat) is Some {
                res as nat == text::natural(v@, u64::MAX as nat)->0
            } else {
                res == default_ms
            },
            None => res == default_ms,
        },
{
    if debug_build {
        match value {
            Some(v) => match text::parse_natural(v, u64::MAX) {
                Some(ms) => return ms,
                None => {},
            },
            None => {},
        }
    }
    default_ms
}

/// Why a file or directory could not be read or removed.
#[derive(Debug)]
pub struct FileFailure {
    /// Whether it does not exist.
    pub not_found: bool,
    pub reason: String,
}

/// What to do with the runtime directory of a process that is gone.
#[derive(Debug)]
pub enum RemoveStep {
    Remove,
    Keep,
    Fail(MainError),
}

/// Whether to remove a runtime directory: only if its PID file still names the
/// process that was seen to be gone.
pub fn remove_daemon_dir_if_pid(pid_file: &Result<String, FileFailure>, expected_pid: i32) -> (res:
    RemoveStep)
    ensures
        match *pid_file {
            Ok(content) => if recorded_pid(content@) == Some(expected_pid) {
                res is Remove
            } else {
                res is Keep
            },
            Err(failure) => if failure.not_found {
                res is Keep
            } else {
                res matches RemoveStep::Fail(e) && e@ == (MainErrorView::ProcessControl {
                    operation: "verify stale daemon runtime directory"@,
                    reason: failure.reason@,
                })
            },
        },
{
    match pid_file {
        Ok(content) => match read_pid(content.as_str()) {
            Some(pid) => if pid == expected_pid {
                RemoveStep::Remove
            } else {
                RemoveStep::Keep
            },
            None => RemoveStep::Keep,
        },
        Err(failure) => {
            if failure.not_found {
                RemoveStep::Keep
            } else {
                RemoveStep::Fail(
                    MainError::ProcessControl {
                        operation: "verify stale daemon runtime directory".to_owned(),
                        reason: failure.reason.clone(),
                    },
                )
            }
        },
    }
}

/// What the removal of a runtime directory came to. One that is gone already
/// counts as removed.
pub fn remove_daemon_dir(removed: &Result<(), FileFailure>) -> (res: Result<(), MainError>)
    ensures
        match *removed {
            Ok(_) => res is Ok,
            Err(failure) => if failure.not_found {
                res is Ok
            } else {
                res matches Err(e) && e@ == (MainErrorView::ProcessControl {
                    operation: "remove stale daemon runtime directory"@,
                    reason: failure.reason@,
                })
            },
        },
{
    match removed {
        Ok(_) => Ok(()),
        Err(failure) => {
            if failure.not_found {
                Ok(())
            } else {
                Err(
                    MainError::ProcessControl {
                        operation: "remove stale daemon runtime directory".to_owned(),
                        reason: failure.reason.clone(),
                    },
                )
            }
        },
    }
}

/// A signal is sent only after the daemon, under the recorded PID, has answered
/// for itself and agreed to stop, its exit was watched before it was asked, and
/// its time was over twice.
pub proof fn law_kill_comes_last(h: StopHistory)
    ensures
        stop_step(h) matches StopStepView::Kill { pid } ==> {
            &&& pid > 0
            &&& h.pid_file matches Some(Ok(content)) && recorded_pid(content@) == Some(pid)
            &&& h.hello matches Some(Ok(hello)) && hello@ == (MQResponseView::HelloAck { pid })
            &&& h.watch == Some(Ok::<WatchState, String>(WatchState::Watching))
            &&& h.shutdown matches Some(Ok(ack)) && ack@ == (MQResponseView::ShutdownAck { pid })
            &&& h.grace == Some(Ok::<WaitOutcome, String>(WaitOutcome::TimedOut))
            &&& h.recheck == Some(Ok::<WaitOutcome, String>(WaitOutcome::TimedOut))
        },
{
}

/// The exit is watched before the daemon is asked to stop.
pub proof fn law_watch_comes_before_shutdown(h: StopHistory)
    ensures
        stop_step(h) is SendShutdown ==> h.watch == Some(
            Ok::<WatchState, String>(WatchState::Watching),
        ),
{
}

/// Runtime state is removed only after the process was seen to be gone: it had
/// exited before it was watched, or its exit was seen after it was killed.
pub proof fn law_only_dead_daemons_are_cleaned_up(h: StopHistory)
    ensures
        stop_step(h) is RemoveIfPid ==> {
            ||| h.watch == Some(Ok::<WatchState, String>(WatchState::AlreadyExited))
            ||| h.killed == Some(Ok::<WaitOutcome, String>(WaitOutcome::Exited))
        },
{
}

/// Stopping succeeds only if there was no daemon, or it is known to be gone.
pub proof fn law_stop_succeeds_only_when_gone(h: StopHistory)
    ensures
        stop_step(h) is Done ==> {
            ||| h.runtime_dir matches Some(Ok(None))
            ||| h.watch == Some(Ok::<WatchState, String>(WatchState::AlreadyExited))
            ||| h.grace == Some(Ok::<WaitOutcome, String>(WaitOutcome::Exited))
            ||| h.recheck == Some(Ok::<WaitOutcome, String>(WaitOutcome::Exited))
            ||| h.killed == Some(Ok::<WaitOutcome, String>(WaitOutcome::Exited))
        },
{
}

/// A process ID is a positive number that a platform can have, whatever white
/// space stands around it.
pub proof fn law_process_ids_read_back(pid: i32, before: Seq<char>, after: Seq<char>)
    requires
        pid > 0,
        forall|i: int| 0 <= i < before.len() ==> text::is_white(#[trigger] before[i]),
        forall|i: int| 0 <= i < after.len() ==> text::is_white(#[trigger] after[i]),
    ensures
        recorded_pid(before + text::decimal(pid as nat) + after) == Some(pid),
{
    let core = text::decimal(pid as nat);
    text::lemma_decimal(pid as nat);
    assert(text::is_digit(core[0]));
    assert(text::is_digit(core[core.len() - 1]));
    text::law_trimming_takes_white_space(before, core, after);
    text::law_decimal_reads_back(pid as nat, i32::MAX as nat);
}

/// What was recorded is no process where it is not a number, or is zero or too
/// large.
pub proof fn law_only_process_ids_are_recorded(content: Seq<char>)
    ensures
        recorded_pid(content) matches Some(pid) ==> pid > 0 && text::natural(
            text::trimmed(content),
            0x7fff_ffff,
        ) == Some(pid as nat),
        recorded_pid(content) is None ==> text::natural(text::trimmed(content), 0x7fff_ffff)
            is None || text::natural(text::trimmed(content), 0x7fff_ffff) == Some(0nat),
{
}

/// Whether a daemon was found and its process is recorded.
pub open spec fn is_found(h: StopHistory) -> bool {
    &&& h.runtime_dir is Some && h.runtime_dir->0 is Ok && h.runtime_dir->0->Ok_0 is Some
    &&& h.pid_file is Some && h.pid_file->0 is Ok
    &&& recorded_pid(h.pid_file->0->Ok_0@) is Some
}

/// The process that is recorded for a daemon that was found.
pub open spec fn found_pid(h: StopHistory) -> i32 {
    recorded_pid(h.pid_file->0->Ok_0@)->0
}

/// Whether the daemon greeted back as the process that is recorded.
pub open spec fn is_known(h: StopHistory) -> bool {
    &&& is_found(h)
    &&& h.hello is Some && h.hello->0 is Ok
    &&& h.hello->0->Ok_0@ == (MQResponseView::HelloAck { pid: found_pid(h) })
}

/// Whether the daemon agreed to stop, while its exit was watched.
pub open spec fn is_stopping(h: StopHistory) -> bool {
    &&& is_known(h)
    &&& h.watch == Some(Ok::<WatchState, String>(WatchState::Watching))
    &&& h.shutdown is Some && h.shutdown->0 is Ok
    &&& h.shutdown->0->Ok_0@ == (MQResponseView::ShutdownAck { pid: found_pid(h) })
}

/// Whether the daemon agreed to stop and did not in the time that it was given.
pub open spec fn is_overdue(h: StopHistory) -> bool {
    &&& is_stopping(h)
    &&& h.grace == Some(Ok::<WaitOutcome, String>(WaitOutcome::TimedOut))
    &&& h.recheck == Some(Ok::<WaitOutcome, String>(WaitOutcome::TimedOut))
}

/// Whether the daemon was killed, or was gone when it was to be.
pub open spec fn is_killed(h: StopHistory) -> bool {
    &&& is_overdue(h)
    &&& h.kill is Some
    &&& h.kill->0 is Err ==> h.kill->0->Err_0.no_such_process
}

/// Stopping does one thing after the other, each exactly when all before it went
/// well: it finds the daemon and its recorded process, has it answer for itself,
/// watches it, asks it to stop, waits, looks once more, and only then kills it.
/// A process that does not answer is watched to see whether it is gone.
#[verifier::spinoff_prover]
pub proof fn law_stopping_goes_in_order(h: StopHistory)
    ensures
        ({
            let step = stop_step(h);
            &&& step is FindRuntimeDir <==> h.runtime_dir is None
            &&& step is ReadPid <==> h.runtime_dir is Some && h.runtime_dir->0 is Ok
                && h.runtime_dir->0->Ok_0 is Some && h.pid_file is None
            &&& step is SendHello <==> is_found(h) && h.hello is None
            &&& step is Arm <==> (is_known(h) || (is_found(h) && h.hello is Some && h.hello->0
                is Err)) && h.watch is None
            &&& step is SendShutdown <==> is_known(h) && h.watch == Some(
                Ok::<WatchState, String>(WatchState::Watching),
            ) && h.shutdown is None
            &&& step is WaitGrace <==> is_stopping(h) && h.grace is None
            &&& step is Recheck <==> is_stopping(h) && h.grace == Some(
                Ok::<WaitOutcome, String>(WaitOutcome::TimedOut),
            ) && h.recheck is None
            &&& step is Kill <==> is_overdue(h) && h.kill is None
            &&& step is WaitKilled <==> is_killed(h) && h.killed is None
        }),
{
}

/// Whether the process that is recorded was gone before it was watched.
pub open spec fn was_gone(h: StopHistory) -> bool {
    &&& is_known(h) || (is_found(h) && h.hello is Some && h.hello->0 is Err)
    &&& h.watch == Some(Ok::<WatchState, String>(WatchState::AlreadyExited))
}

/// Whether the daemon was seen to exit once it was killed.
pub open spec fn died(h: StopHistory) -> bool {
    is_killed(h) && h.killed == Some(Ok::<WaitOutcome, String>(WaitOutcome::Exited))
}

/// What was left of a daemon is removed exactly if its process was gone before or
/// was seen to exit once killed. Stopping ends well exactly if nothing was running,
/// what was left is removed, or the daemon went in its time; and it says which.
#[verifier::spinoff_prover]
pub proof fn law_stopping_ends_with_the_daemon(h: StopHistory)
    ensures
        ({
            let step = stop_step(h);
            let left = is_stopping(h) && (h.grace == Some(
                Ok::<WaitOutcome, String>(WaitOutcome::Exited),
            ) || (h.grace == Some(Ok::<WaitOutcome, String>(WaitOutcome::TimedOut)) && h.recheck
                == Some(Ok::<WaitOutcome, String>(WaitOutcome::Exited))));
            let absent = h.runtime_dir is Some && h.runtime_dir->0 is Ok
                && h.runtime_dir->0->Ok_0 is None;
            let cleared = h.removed is Some && h.removed->0 is Ok;
            &&& step is RemoveIfPid <==> (was_gone(h) || died(h)) && h.removed is None
            &&& step is RemoveIfPid ==> {
                &&& step->RemoveIfPid_dir == (h.runtime_dir->0->Ok_0->0)@
                &&& step->RemoveIfPid_pid == found_pid(h)
                &&& was_gone(h) ==> step->RemoveIfPid_message == Some(
                    "Process not running, cleaning up"@,
                )
                &&& died(h) ==> step->RemoveIfPid_message is None
            }
            &&& step is Done <==> absent || left || ((was_gone(h) || died(h)) && cleared)
            &&& step is Done ==> {
                &&& absent ==> step->Done_message == Some(
                    "Merge queue daemon is not running for this project"@,
                )
                &&& left ==> step->Done_message == Some("Daemon stopped successfully"@)
                &&& was_gone(h) ==> step->Done_message is None
                &&& died(h) ==> step->Done_message == Some("Daemon forcefully terminated"@)
            }
        }),
{
}

/// What stopping asks for: the files of the directory that was found, and the
/// process that is recorded there and no other.
pub proof fn law_stopping_is_about_the_recorded_process(h: StopHistory)
    ensures
        ({
            let dir = (h.runtime_dir->0->Ok_0->0)@;
            match stop_step(h) {
                StopStepView::ReadPid { path } => path == text::joined_path(dir, "mq.pid"@),
                StopStepView::SendHello { socket } => socket == text::joined_path(dir, "mq.sock"@),
                StopStepView::SendShutdown { socket, pid } => {
                    &&& socket == text::joined_path(dir, "mq.sock"@)
                    &&& pid == found_pid(h)
                },
                StopStepView::Arm { pid } => pid == found_pid(h),
                StopStepView::Kill { pid } => pid == found_pid(h),
                _ => true,
            }
        }),
        MQ_STOP_GRACE_TIMEOUT_MS == 30_000,
        MQ_STOP_KILL_TIMEOUT_MS == 5_000,
        STOP_TIMEOUT_WARNING@ == "Timeout waiting for daemon to stop, sending SIGKILL..."@,
{
}

/// What stopping fails with is what went wrong first, and what was being done.
#[verifier::spinoff_prover]
pub proof fn law_stopping_fails_with_what_went_wrong(h: StopHistory)
    requires
        stop_step(h) is Fail,
    ensures
        ({
            let e = stop_step(h)->Fail_0;
            let failed = |operation: Seq<char>, reason: Seq<char>|
                e == (MainErrorView::ProcessControl { operation, reason });
            let found = h.runtime_dir is Some && h.runtime_dir->0 is Ok
                && h.runtime_dir->0->Ok_0 is Some;
            ||| h.runtime_dir->0 is Err && e == h.runtime_dir->0->Err_0@
            ||| found && h.pid_file->0 is Err && failed(
                "read daemon PID"@,
                h.pid_file->0->Err_0@,
            )
            ||| found && h.pid_file->0 is Ok && !is_found(h) && failed(
                "validate daemon PID"@,
                "daemon PID must be a positive platform process ID"@,
            )
            ||| is_found(h) && h.hello->0 is Err && h.watch->0 is Err && failed(
                "observe stale daemon PID"@,
                h.watch->0->Err_0@,
            )
            ||| is_found(h) && h.hello->0 is Err && h.watch == Some(
                Ok::<WatchState, String>(WatchState::Watching),
            ) && failed("verify daemon identity"@, h.hello->0->Err_0@)
            ||| is_found(h) && h.hello->0 is Ok && h.hello->0->Ok_0@ is HelloAck && !is_known(h)
                && failed("verify daemon identity"@, "daemon socket PID does not match mq.pid"@)
            ||| is_found(h) && h.hello->0 is Ok && !(h.hello->0->Ok_0@ is HelloAck) && e
                == MainErrorView::CommunicationFailed
            ||| is_known(h) && h.watch->0 is Err && failed(
                "observe daemon exit"@,
                h.watch->0->Err_0@,
            )
            ||| is_known(h) && h.shutdown->0 is Err && failed(
                "request daemon shutdown"@,
                h.shutdown->0->Err_0@,
            )
            ||| is_known(h) && h.shutdown->0 is Ok && h.shutdown->0->Ok_0@ is ShutdownAck
                && !is_stopping(h) && failed(
                "verify shutdown responder"@,
                "daemon socket PID does not match mq.pid"@,
            )
            ||| is_known(h) && h.shutdown->0 is Ok && !(h.shutdown->0->Ok_0@ is ShutdownAck) && e
                == MainErrorView::CommunicationFailed
            ||| is_stopping(h) && h.grace->0 is Err && failed(
                "wait for daemon exit"@,
                h.grace->0->Err_0@,
            )
            ||| is_stopping(h) && h.grace->0 is Ok && h.recheck->0 is Err && failed(
                "recheck daemon exit"@,
                h.recheck->0->Err_0@,
            )
            ||| is_overdue(h) && h.kill->0 is Err && !h.kill->0->Err_0.no_such_process && failed(
                "send SIGKILL to daemon"@,
                h.kill->0->Err_0.reason@,
            )
            ||| is_killed(h) && h.killed->0 is Err && failed(
                "wait for force-killed daemon"@,
                h.killed->0->Err_0@,
            )
            ||| is_killed(h) && h.killed == Some(
                Ok::<WaitOutcome, String>(WaitOutcome::TimedOut),
            ) && failed(
                "wait for force-killed daemon"@,
                "daemon remained alive after SIGKILL"@,
            )
            ||| (was_gone(h) || died(h)) && h.removed->0 is Err && e == h.removed->0->Err_0@
        }),
{
}

/// Waiting takes its default time. Only a debug build takes another number, and
/// only one that can be read.
pub proof fn law_waiting_takes_its_time(
    debug_build: bool,
    value: Option<&str>,
    default_ms: u64,
    res: u64,
)
    requires
        call_ensures(mq_stop_timeout, (debug_build, value, default_ms), res),
    ensures
        !debug_build || value is None ==> res == default_ms,
        value matches Some(v) ==> {
            &&& text::natural(v@, u64::MAX as nat) is None ==> res == default_ms
            &&& debug_build && text::natural(v@, u64::MAX as nat) is Some ==> Some(res as nat)
                == text::natural(v@, u64::MAX as nat)
        },
{
}

/// A runtime directory is removed only while it names the very process that was
/// gone, and one that is gone itself counts as removed.
pub proof fn law_only_stale_directories_are_removed(
    pid_file: Result<String, FileFailure>,
    expected_pid: i32,
    step: RemoveStep,
    removed: Result<(), FileFailure>,
    res: Result<(), MainError>,
)
    requires
        call_ensures(remove_daemon_dir_if_pid, (&pid_file, expected_pid), step),
        call_ensures(remove_daemon_dir, (&removed,), res),
    ensures
        step is Remove <==> pid_file is Ok && recorded_pid(pid_file->Ok_0@) == Some(expected_pid),
        step is Fail <==> pid_file is Err && !pid_file->Err_0.not_found,
        step matches RemoveStep::Fail(e) ==> e@ == (MainErrorView::ProcessControl {
            operation: "verify stale daemon runtime directory"@,
            reason: pid_file->Err_0.reason@,
        }),
        res is Ok <==> removed is Ok || removed->Err_0.not_found,
        res matches Err(e) ==> e@ == (MainErrorView::ProcessControl {
            operation: "remove stale daemon runtime directory"@,
            reason: removed->Err_0.reason@,
        }),
{
}

} // verus!

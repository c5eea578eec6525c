//! Waiting for a process to exit.
//!
//! The descriptor that tells of the exit belongs to the driver. What is decided
//! here is which processes can be watched, how long each poll may take, and
//! what its result means.

use vstd::prelude::*;

use crate::text;

verus! {

/// What came of an attempt to watch a process.
#[derive(Debug, Clone, Copy, PartialEq, Eq, Structural)]
pub enum WatchState {
    /// It is alive and its exit will be seen.
    Watching,
    /// It had exited before.
    AlreadyExited,
}

/// What came of waiting.
#[derive(Debug, Clone, Copy, PartialEq, Eq, Structural)]
pub enum WaitOutcome {
    Exited,
    /// The time was up and the process was alive.
    TimedOut,
}

/// Why a process cannot be watched.
#[derive(Debug)]
pub enum WatchError {
    /// What was asked for makes no sense.
    InvalidInput(String),
    /// The system refused.
    Other(String),
}

/// What a [`WatchError`] holds.
pub enum WatchErrorView {
    InvalidInput(Seq<char>),
    Other(Seq<char>),
}

impl View for WatchError {
    type V = WatchErrorView;

    open spec fn view(&self) -> WatchErrorView {
        match *self {
            WatchError::InvalidInput(e) => WatchErrorView::InvalidInput(e@),
            WatchError::Other(e) => WatchErrorView::Other(e@),
        }
    }
}

impl WatchError {
    /// The message of the error.
    pub fn message(&self) -> (res: String)
        ensures
            res@ == match self@ {
                WatchErrorView::InvalidInput(e) => e,
                WatchErrorView::Other(e) => e,
            },
    {
        match self {
            WatchError::InvalidInput(e) => e.clone(),
            WatchError::Other(e) => e.clone(),
        }
    }
}

/// The error number for a process that does not exist.
pub const ESRCH: i32 = 3;

/// Whether the exit of a process can be watched at all: zero and negative
/// numbers name groups of processes.
pub fn arm(pid: i32) -> (res: Result<(), WatchError>)
    ensures
        res is Ok <==> pid > 0,
        res matches Err(e) ==> e@ == WatchErrorView::InvalidInput("process ID must be positive"@),
{
    if pid <= 0 {
        return Err(WatchError::InvalidInput("process ID must be positive".to_owned()));
    }
    Ok(())
}

/// What it means that a descriptor for a process could, or could not, be opened.
pub fn opened(result: Result<(), (i32, String)>) -> (res: Result<WatchState, WatchError>)
    ensures
        match result {
            Ok(_) => res == Ok::<WatchState, WatchError>(WatchState::Watching),
            Err((code, reason)) => if code == ESRCH {
                res == Ok::<WatchState, WatchError>(WatchState::AlreadyExited)
            } else {
                res matches Err(e) && e@ == WatchErrorView::Other(reason@)
            },
        },
{
    match result {
        Ok(_) => Ok(WatchState::Watching),
        Err((code, reason)) => {
            if code == ESRCH {
                Ok(WatchState::AlreadyExited)
            } else {
                Err(WatchError::Other(reason))
            }
        },
    }
}

/// The time until which to wait: what adding the timeout to the current time of
/// a clock that never goes back came to, if the clock can tell that time.
pub fn deadline<T>(sum: Option<T>) -> (res: Result<T, WatchError>)
    ensures
        match sum {
            Some(at) => res == Ok::<T, WatchError>(at),
            None => res matches Err(e) && e@ == WatchErrorView::InvalidInput(
                "process-exit timeout exceeds the monotonic clock range"@,
            ),
        },
{
    match sum {
        Some(at) => Ok(at),
        None => Err(
            WatchError::InvalidInput(
                "process-exit timeout exceeds the monotonic clock range".to_owned(),
            ),
        ),
    }
}

/// The nanoseconds that are left until a deadline: none once it has passed.
pub open spec fn time_left(remaining: Option<u128>) -> int {
    match remaining {
        Some(nanos) => nanos as int,
        None => 0,
    }
}

/// How many milliseconds a poll may take: none once the deadline has passed,
/// else at least one, so that a wait of less does not spin, and no more than
/// the system takes.
pub open spec fn poll_time(remaining: Option<u128>) -> int {
    let millis = time_left(remaining) / 1_000_000;
    if time_left(remaining) == 0 {
        0
    } else if millis < 1 {
        1
    } else if millis > i32::MAX {
        i32::MAX as int
    } else {
        millis
    }
}

/// How many milliseconds a poll may take, given the nanoseconds that are left
/// until the deadline, none where it has passed.
pub fn remaining_poll_millis(remaining: Option<u128>) -> (res: i32)
    ensures
        res == poll_time(remaining),
{
    let nanos: u128 = match remaining {
        Some(nanos) => nanos,
        None => 0,
    };
    if nanos == 0 {
        return 0;
    }
    let millis: u128 = nanos / 1_000_000;
    if millis < 1 {
        1
    } else if millis > i32::MAX as u128 {
        i32::MAX
    } else {
        millis as i32
    }
}

/// There is something to read.
pub const POLLIN: u16 = 1;

/// An error on the descriptor.
pub const POLLERR: u16 = 8;

/// The other side is gone.
pub const POLLHUP: u16 = 16;

/// The descriptor is not open.
pub const POLLNVAL: u16 = 32;

/// What a poll returned.
#[derive(Debug)]
pub enum PollReply {
    /// Nothing happened in its time.
    Nothing,
    /// A signal came.
    Interrupted,
    /// It failed.
    Failed(String),
    /// These events happened.
    Events(u16),
}

/// What follows from a poll.
#[derive(Debug)]
pub enum PollStep {
    /// Poll again.
    Again,
    Done(WaitOutcome),
    Fail(String),
}

/// Whether a step is the right one after a poll. Errors come before an exit,
/// and time that has passed counts only when nothing happened.
pub open spec fn poll_next(step: PollStep, reply: PollReply, expired: bool) -> bool {
    match reply {
        PollReply::Nothing => if expired {
            step == PollStep::Done(WaitOutcome::TimedOut)
        } else {
            step is Again
        },
        PollReply::Interrupted => step is Again,
        PollReply::Failed(e) => step matches PollStep::Fail(f) && f@ == e@,
        PollReply::Events(events) => if events & (POLLERR | POLLNVAL) != 0 {
            step matches PollStep::Fail(f) && f@ == "pidfd poll returned error events 0x"@
                + text::hexadecimal(events as nat)
        } else if events & (POLLIN | POLLHUP) != 0 {
            step == PollStep::Done(WaitOutcome::Exited)
        } else {
            step matches PollStep::Fail(f) && f@ == "pidfd poll returned unexpected events 0x"@
                + text::hexadecimal(events as nat)
        },
    }
}

/// What follows from a poll. `expired` says whether the deadline has passed.
pub fn wait_platform(reply: PollReply, expired: bool) -> (res: PollStep)
    ensures
        poll_next(res, reply, expired),
{
    match reply {
        PollReply::Nothing => {
            if expired {
                PollStep::Done(WaitOutcome::TimedOut)
            } else {
                PollStep::Again
            }
        },
        PollReply::Interrupted => PollStep::Again,
        PollReply::Failed(e) => PollStep::Fail(e),
        PollReply::Events(events) => {
            if events & (POLLERR | POLLNVAL) != 0 {
                PollStep::Fail(
                    String::from_str("pidfd poll returned error events 0x").concat(
                        text::hexadecimal_of(events).as_str(),
                    ),
                )
            } else if events & (POLLIN | POLLHUP) != 0 {
                PollStep::Done(WaitOutcome::Exited)
            } else {
                PollStep::Fail(
                    String::from_str("pidfd poll returned unexpected events 0x").concat(
                        text::hexadecimal_of(events).as_str(),
                    ),
                )
            }
        },
    }
}

/// How long a wait for an event of a kernel queue may take: the whole time that
/// is left, in seconds and nanoseconds, but for seconds that the system cannot
/// count. The time left is in nanoseconds, none where the deadline has passed.
pub fn remaining_timespec(remaining: Option<u128>) -> (res: (i64, i64))
    ensures
        res.0 == (if time_left(remaining) / 1_000_000_000 > i64::MAX {
            i64::MAX as int
        } else {
            time_left(remaining) / 1_000_000_000
        }),
        res.1 == time_left(remaining) % 1_000_000_000,
{
    let nanos: u128 = match remaining {
        Some(nanos) => nanos,
        None => 0,
    };
    let secs: u128 = nanos / 1_000_000_000;
    let whole: i64 = if secs > i64::MAX as u128 {
        i64::MAX
    } else {
        secs as i64
    };
    (whole, (nanos % 1_000_000_000) as i64)
}

/// The flag of an event that reports an error.
pub const EV_ERROR: u16 = 0x4000;

/// The filter for events of processes.
pub const EVFILT_PROC: i16 = -5;

/// The flag for the exit of a process.
pub const NOTE_EXIT: u32 = 0x8000_0000;

/// What waiting for an event of a kernel queue returned.
#[derive(Debug)]
pub enum QueueReply {
    /// Nothing happened in its time.
    Nothing,
    /// A signal came.
    Interrupted,
    /// It failed.
    Failed(String),
    /// An event happened. The error is the one that it may report.
    Event { ident: u64, filter: i16, flags: u16, fflags: u32, error: String },
}

/// Whether a step is the right one after a wait for an event of a process: only
/// the exit of that very process counts as its exit.
pub open spec fn queue_next(step: PollStep, reply: QueueReply, pid: i32, expired: bool) -> bool {
    match reply {
        QueueReply::Nothing => if expired {
            step == PollStep::Done(WaitOutcome::TimedOut)
        } else {
            step is Again
        },
        QueueReply::Interrupted => step is Again,
        QueueReply::Failed(e) => step matches PollStep::Fail(f) && f@ == e@,
        QueueReply::Event { ident, filter, flags, fflags, error } => if flags & EV_ERROR != 0 {
            step matches PollStep::Fail(f) && f@ == error@
        } else if ident == pid && filter == EVFILT_PROC && fflags & NOTE_EXIT != 0 {
            step == PollStep::Done(WaitOutcome::Exited)
        } else {
            step matches PollStep::Fail(f) && f@ == "kqueue returned an unexpected event"@
        },
    }
}

/// What follows from a wait for an event of a process.
pub fn wait_kernel_queue(reply: QueueReply, pid: i32, expired: bool) -> (res: PollStep)
    requires
        pid > 0,
    ensures
        queue_next(res, reply, pid, expired),
{
    match reply {
        QueueReply::Nothing => {
            if expired {
                PollStep::Done(WaitOutcome::TimedOut)
            } else {
                PollStep::Again
            }
        },
        QueueReply::Interrupted => PollStep::Again,
        QueueReply::Failed(e) => PollStep::Fail(e),
        QueueReply::Event { ident, filter, flags, fflags, error } => {
            if flags & EV_ERROR != 0 {
                PollStep::Fail(error)
            } else if ident == pid as u64 && filter == EVFILT_PROC && fflags & NOTE_EXIT != 0 {
                PollStep::Done(WaitOutcome::Exited)
            } else {
                PollStep::Fail("kqueue returned an unexpected event".to_owned())
            }
        },
    }
}

/// A poll never outlasts its deadline by a millisecond or more, and while the
/// deadline is ahead it does not spin.
pub proof fn law_poll_time_fits(remaining: Option<u128>)
    ensures
        time_left(remaining) > 0 ==> poll_time(remaining) >= 1,
        time_left(remaining) == 0 ==> poll_time(remaining) == 0,
        poll_time(remaining) * 1_000_000 < time_left(remaining) + 1_000_000,
        poll_time(remaining) <= i32::MAX,
{
}

/// How long a poll may take: the time that is left in whole milliseconds, at least
/// one while there is any time left, and at most what the system takes.
pub proof fn law_polls_take_the_time_that_is_left(nanos: u128)
    ensures
        poll_time(None) == 0,
        poll_time(Some(0u128)) == 0,
        0 < nanos < 2_000_000 ==> poll_time(Some(nanos)) == 1,
        1_000_000 <= nanos < 2_147_483_648_000_000 ==> {
            &&& poll_time(Some(nanos)) * 1_000_000 <= nanos
            &&& nanos < (poll_time(Some(nanos)) + 1) * 1_000_000
        },
        nanos >= 2_147_483_647_000_000 ==> poll_time(Some(nanos)) == 2_147_483_647,
{
}

/// What a poll means. An error on the descriptor fails the wait whatever else
/// happened. Else the process has exited exactly if there is something to read
/// or the other side is gone. Nothing ends a wait before its time but one of
/// these, and a signal never does.
pub proof fn law_polls_tell_of_the_exit(step: PollStep, reply: PollReply, expired: bool)
    requires
        poll_next(step, reply, expired),
    ensures
        step == PollStep::Done(WaitOutcome::TimedOut) <==> reply is Nothing && expired,
        step is Again <==> reply is Interrupted || (reply is Nothing && !expired),
        step == PollStep::Done(WaitOutcome::Exited) <==> (reply matches PollReply::Events(events)
            && events & 40u16 == 0 && events & 17u16 != 0),
        reply matches PollReply::Failed(e) ==> step is Fail && step->Fail_0@ == e@,
        reply matches PollReply::Events(events) ==> {
            &&& events & 40u16 != 0 ==> step is Fail && step->Fail_0@
                == "pidfd poll returned error events 0x"@ + text::hexadecimal(events as nat)
            &&& events & 40u16 == 0 && events & 17u16 == 0 ==> step is Fail && step->Fail_0@
                == "pidfd poll returned unexpected events 0x"@ + text::hexadecimal(events as nat)
        },
{
    assert(8u16 | 32u16 == 40u16) by (bit_vector);
    assert(1u16 | 16u16 == 17u16) by (bit_vector);
}

/// What an event of a kernel queue means. One that reports an error fails the
/// wait. Else the process has exited exactly if the event tells of the exit of
/// that very process.
pub proof fn law_queues_tell_of_the_exit(
    step: PollStep,
    reply: QueueReply,
    pid: i32,
    expired: bool,
)
    requires
        queue_next(step, reply, pid, expired),
    ensures
        step == PollStep::Done(WaitOutcome::TimedOut) <==> reply is Nothing && expired,
        step is Again <==> reply is Interrupted || (reply is Nothing && !expired),
        step == PollStep::Done(WaitOutcome::Exited) <==> (reply matches QueueReply::Event {
            ident,
            filter,
            flags,
            fflags,
            ..
        } && flags & 0x4000u16 == 0 && ident == pid && filter == -5 && fflags & 0x8000_0000u32
            != 0),
        reply matches QueueReply::Failed(e) ==> step is Fail && step->Fail_0@ == e@,
        reply matches QueueReply::Event { flags, error, .. } ==> {
            &&& flags & 0x4000u16 != 0 ==> step is Fail && step->Fail_0@ == error@
            &&& flags & 0x4000u16 == 0 && step is Fail ==> step->Fail_0@
                == "kqueue returned an unexpected event"@
        },
        ESRCH == 3,
{
}

/// Only single processes are watched: zero and negative numbers are refused.
pub proof fn law_only_single_processes_are_watched(pid: i32, res: Result<(), WatchError>)
    requires
        call_ensures(arm, (pid,), res),
    ensures
        pid > 0 ==> res is Ok,
        pid <= 0 ==> res is Err && res->Err_0@ == WatchErrorView::InvalidInput(
            "process ID must be positive"@,
        ),
{
}

/// A process that does not exist has exited before; that it cannot be opened for
/// any other reason is an error.
pub proof fn law_missing_processes_have_exited(
    result: Result<(), (i32, String)>,
    res: Result<WatchState, WatchError>,
)
    requires
        call_ensures(opened, (result,), res),
    ensures
        result is Ok ==> res == Ok::<WatchState, WatchError>(WatchState::Watching),
        result matches Err(failure) ==> {
            &&& failure.0 == 3 ==> res == Ok::<WatchState, WatchError>(WatchState::AlreadyExited)
            &&& failure.0 != 3 ==> res is Err && res->Err_0@ == WatchErrorView::Other(failure.1@)
        },
{
}

/// A deadline is the time that the clock told, and an error where it can tell none.
pub proof fn law_deadlines_are_as_the_clock_tells(
    sum: Option<u64>,
    res: Result<u64, WatchError>,
    e: WatchError,
    message: String,
)
    requires
        call_ensures(deadline::<u64>, (sum,), res),
        call_ensures(WatchError::message, (&e,), message),
    ensures
        sum matches Some(at) ==> res == Ok::<u64, WatchError>(at),
        sum is None ==> res is Err && res->Err_0@ == WatchErrorView::InvalidInput(
            "process-exit timeout exceeds the monotonic clock range"@,
        ),
        e matches WatchError::InvalidInput(reason) ==> message@ == reason@,
        e matches WatchError::Other(reason) ==> message@ == reason@,
{
}

/// A wait for a kernel queue takes all the time that is left, as far as seconds can
/// be counted.
pub proof fn law_queues_take_the_time_that_is_left(remaining: Option<u128>, res: (i64, i64))
    requires
        call_ensures(remaining_timespec, (remaining,), res),
    ensures
        remaining is None ==> res.0 == 0 && res.1 == 0,
        0 <= res.1 < 1_000_000_000,
        res.0 >= 0,
        remaining matches Some(nanos) ==> {
            &&& nanos < 0x7fff_ffff_ffff_ffff * 1_000_000_000 ==> res.0 * 1_000_000_000 + res.1
                == nanos
            &&& res.0 * 1_000_000_000 + res.1 <= nanos
        },
{
    if remaining is Some {
        let nanos = remaining->0 as int;
        assert(nanos == nanos / 1_000_000_000 * 1_000_000_000 + nanos % 1_000_000_000);
    }
}

} // verus!

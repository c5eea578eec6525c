use selfci::process_exit::{
    arm, deadline, opened, remaining_poll_millis, remaining_timespec, wait_kernel_queue,
    wait_platform, PollReply, PollStep, QueueReply, WaitOutcome, WatchError, WatchState, ESRCH,
    EVFILT_PROC, EV_ERROR, NOTE_EXIT, POLLERR, POLLHUP, POLLIN,
};

#[test]
fn rejects_nonpositive_process_ids() {
    for pid in [0, -1] {
        assert!(matches!(arm(pid).unwrap_err(), WatchError::InvalidInput(_)));
    }
    assert_eq!(arm(0).unwrap_err().message(), "process ID must be positive");
    assert!(arm(1).is_ok());
}

#[test]
fn rejects_unrepresentable_timeout() {
    let now = std::time::Instant::now();
    match deadline(now.checked_add(std::time::Duration::MAX)) {
        Err(WatchError::InvalidInput(e)) => {
            assert_eq!(e, "process-exit timeout exceeds the monotonic clock range");
        }
        other => panic!("{:?}", other),
    }
    // A timeout is refused only where the clock itself cannot tell the time.
    let far = std::time::Duration::from_secs(1_000 * 365 * 24 * 60 * 60);
    assert_eq!(deadline(now.checked_add(far)).unwrap(), now + far);
}

#[test]
fn reaped_process_is_already_exited() {
    assert_eq!(
        opened(Err((ESRCH, "No such process".to_string()))).unwrap(),
        WatchState::AlreadyExited
    );
    assert_eq!(opened(Ok(())).unwrap(), WatchState::Watching);
    assert_eq!(opened(Err((1, "denied".to_string()))).unwrap_err().message(), "denied");
}

#[test]
fn error_numbers_and_flags_are_those_of_the_system() {
    assert_eq!(ESRCH, libc::ESRCH);
    assert_eq!(POLLIN as i16, libc::POLLIN);
    assert_eq!(POLLERR as i16, libc::POLLERR);
    assert_eq!(POLLHUP as i16, libc::POLLHUP);
}

#[test]
fn polls_wait_for_whole_milliseconds() {
    assert_eq!(remaining_poll_millis(Some(0)), 0);
    assert_eq!(remaining_poll_millis(None), 0);
    assert_eq!(remaining_poll_millis(Some(1)), 1);
    assert_eq!(remaining_poll_millis(Some(3_000_000)), 3);
    assert_eq!(remaining_poll_millis(Some(3_999_999)), 3);
    assert_eq!(remaining_poll_millis(Some(std::time::Duration::MAX.as_nanos())), i32::MAX);
    assert_eq!(remaining_timespec(Some(1_500_000_000)), (1, 500_000_000));
    assert_eq!(remaining_timespec(None), (0, 0));
    assert_eq!(
        remaining_timespec(Some(std::time::Duration::MAX.as_nanos())),
        (i64::MAX, 999_999_999)
    );
}

#[test]
fn watcher_times_out_then_observes_exit() {
    assert!(matches!(wait_platform(PollReply::Nothing, false), PollStep::Again));
    assert!(matches!(
        wait_platform(PollReply::Nothing, true),
        PollStep::Done(WaitOutcome::TimedOut)
    ));
    assert!(matches!(
        wait_platform(PollReply::Events(POLLIN), true),
        PollStep::Done(WaitOutcome::Exited)
    ));
    assert!(matches!(wait_platform(PollReply::Interrupted, true), PollStep::Again));
}

#[test]
fn unexpected_events_are_errors() {
    match wait_platform(PollReply::Events(POLLERR | POLLIN), false) {
        PollStep::Fail(e) => assert_eq!(e, "pidfd poll returned error events 0x9"),
        other => panic!("{:?}", other),
    }
    match wait_platform(PollReply::Events(0x400), false) {
        PollStep::Fail(e) => assert_eq!(e, "pidfd poll returned unexpected events 0x400"),
        other => panic!("{:?}", other),
    }
    match wait_platform(PollReply::Failed("bad descriptor".to_string()), true) {
        PollStep::Fail(e) => assert_eq!(e, "bad descriptor"),
        other => panic!("{:?}", other),
    }
}

#[test]
fn kernel_queues_report_the_exit_of_the_process_that_is_watched() {
    let event = |ident: u64, flags: u16| QueueReply::Event {
        ident,
        filter: EVFILT_PROC,
        flags,
        fflags: NOTE_EXIT,
        error: "reported".to_string(),
    };
    assert!(matches!(
        wait_kernel_queue(event(7, 0), 7, false),
        PollStep::Done(WaitOutcome::Exited)
    ));
    match wait_kernel_queue(event(8, 0), 7, false) {
        PollStep::Fail(e) => assert_eq!(e, "kqueue returned an unexpected event"),
        other => panic!("{:?}", other),
    }
    match wait_kernel_queue(event(7, EV_ERROR), 7, false) {
        PollStep::Fail(e) => assert_eq!(e, "reported"),
        other => panic!("{:?}", other),
    }
    assert!(matches!(
        wait_kernel_queue(QueueReply::Nothing, 7, true),
        PollStep::Done(WaitOutcome::TimedOut)
    ));
}

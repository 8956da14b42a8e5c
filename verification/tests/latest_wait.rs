use std::time::{Duration, Instant};

use pipewire_ao::latest::{
    eventfd_drain_step, eventfd_poll_step, poll_timeout_millis, timeout_millis,
    BufferLatestIdle, BufferLatestIdleAction, BufferLatestLinkInfo, BufferLatestLinkRaw,
    BufferLatestNotification, BufferLatestWait, BufferLatestWaitPolicy, BufferLatestWaitStep,
    EventfdDrainStep, EventfdPollStep, SpinDeadline, BufferLatestWaitError,
    BUFFER_LATEST_LINK_IO_ID, BUFFER_LATEST_SPIN_DEADLINE_CHECK_INTERVAL,
    BUFFER_LATEST_WAIT_PROPERTY, OsErrorKind, PollEvents,
};
use pipewire_ao::properties::Properties;

/// Size of a native latest-buffer link descriptor on 64-bit targets.
const DESCRIPTOR_SIZE: usize = 24;

#[test]
fn policy_values_match_daemon_contract() {
    assert_eq!(BUFFER_LATEST_LINK_IO_ID, 13);
    assert_eq!(
        BufferLatestWaitPolicy::BusySpin.port_property_value(),
        "busy-spin"
    );
    assert_eq!(
        BufferLatestWaitPolicy::EventFd.port_property_value(),
        "eventfd"
    );
    assert_eq!(
        BufferLatestWaitPolicy::Hybrid {
            spin_iterations: 64
        }
        .port_property_value(),
        "hybrid"
    );
}

#[test]
fn latest_link_callback_is_snapshotted_without_exposing_shared_io() {
    let active = BufferLatestLinkRaw {
        id: 41,
        flags: 1,
        io_present: true,
        notify_fd: 17,
        reserved: 0,
    };
    let info = BufferLatestLinkInfo::from_io_changed(
        BUFFER_LATEST_LINK_IO_ID,
        Some(active),
        DESCRIPTOR_SIZE as u32,
        DESCRIPTOR_SIZE,
    )
    .expect("valid latest link must decode");
    assert_eq!(
        info,
        BufferLatestLinkInfo {
            id: 41,
            active: true,
            notification_fd: Some(17),
        }
    );

    let retired = BufferLatestLinkRaw {
        flags: 0,
        notify_fd: -1,
        ..active
    };
    let info = BufferLatestLinkInfo::from_io_changed(
        BUFFER_LATEST_LINK_IO_ID,
        Some(retired),
        DESCRIPTOR_SIZE as u32,
        DESCRIPTOR_SIZE,
    )
    .expect("valid retirement must decode");
    assert!(!info.active);
    assert_eq!(info.notification_fd, None);
}

#[test]
fn hybrid_idle_resets_only_after_work() {
    let mut idle = BufferLatestIdle::new(Some(BufferLatestNotification {
        fd: 7,
        spin_iterations: 2,
    }));

    assert_eq!(idle.idle(0), BufferLatestIdleAction::Spin);
    assert_eq!(idle.idle(0), BufferLatestIdleAction::Spin);
    assert_eq!(idle.idle(0), BufferLatestIdleAction::Wait(7));
    assert_eq!(idle.idle(0), BufferLatestIdleAction::Wait(7));
    assert_eq!(idle.idle(1), BufferLatestIdleAction::Worked);
    assert_eq!(idle.idle(0), BufferLatestIdleAction::Spin);
}

#[test]
fn busy_spin_and_eventfd_idle_without_hidden_phases() {
    let mut busy_spin = BufferLatestIdle::new(None);
    let mut eventfd = BufferLatestIdle::new(Some(BufferLatestNotification {
        fd: 11,
        spin_iterations: 0,
    }));

    assert_eq!(busy_spin.idle(0), BufferLatestIdleAction::Spin);
    assert_eq!(eventfd.idle(0), BufferLatestIdleAction::Wait(11));
}

#[test]
fn spin_deadline_check_is_iteration_bounded() {
    let deadline = Instant::now() + Duration::from_secs(3_600);
    let mut check = SpinDeadline::new(Some(deadline));

    assert!(!check.expired());
    assert_eq!(
        check.polls_until_check,
        BUFFER_LATEST_SPIN_DEADLINE_CHECK_INTERVAL - 1
    );
    for remaining in (1..BUFFER_LATEST_SPIN_DEADLINE_CHECK_INTERVAL).rev() {
        assert!(!check.expired());
        assert_eq!(check.polls_until_check, remaining - 1);
    }
    assert!(!check.expired());
    assert_eq!(
        check.polls_until_check,
        BUFFER_LATEST_SPIN_DEADLINE_CHECK_INTERVAL - 1
    );
}

#[test]
fn expired_spin_deadline_is_observed_on_first_empty_poll() {
    let mut check = SpinDeadline::new(Some(Instant::now()));

    assert!(check.expired());
}

#[test]
fn absent_spin_deadline_never_checks_or_expires() {
    let mut check = SpinDeadline::new(None);

    for _ in 0..BUFFER_LATEST_SPIN_DEADLINE_CHECK_INTERVAL * 2 {
        assert!(!check.expired());
    }
    assert_eq!(check.polls_until_check, 0);
}

#[test]
fn poll_timeout_rounds_up_and_saturates() {
    assert_eq!(poll_timeout_millis(Duration::from_nanos(1)), 1);
    assert_eq!(poll_timeout_millis(Duration::from_millis(1)), 1);
    assert_eq!(
        poll_timeout_millis(Duration::from_millis(1) + Duration::from_nanos(1)),
        2
    );
    assert_eq!(poll_timeout_millis(Duration::MAX), i32::MAX);
}

#[test]
fn timeout_of_whole_and_partial_milliseconds() {
    assert_eq!(timeout_millis(0, 0), 0);
    assert_eq!(timeout_millis(2, 500_000), 2_001);
    assert_eq!(timeout_millis(2, 3_000_000), 2_003);
    assert_eq!(timeout_millis(2_147_483, 647_000_000), i32::MAX);
    assert_eq!(timeout_millis(2_147_483, 648_000_000), i32::MAX);
}

#[test]
fn link_descriptors_are_rejected_when_malformed() {
    let valid = BufferLatestLinkRaw {
        id: 3,
        flags: 1,
        io_present: true,
        notify_fd: -1,
        reserved: 0,
    };
    let size = DESCRIPTOR_SIZE as u32;
    assert!(BufferLatestLinkInfo::from_io_changed(12, Some(valid), size, DESCRIPTOR_SIZE).is_none());
    assert!(BufferLatestLinkInfo::from_io_changed(13, None, size, DESCRIPTOR_SIZE).is_none());
    assert!(BufferLatestLinkInfo::from_io_changed(13, Some(valid), size - 1, DESCRIPTOR_SIZE).is_none());
    let reserved = BufferLatestLinkRaw { reserved: 1, ..valid };
    assert!(BufferLatestLinkInfo::from_io_changed(13, Some(reserved), size, DESCRIPTOR_SIZE).is_none());
    let unknown_flag = BufferLatestLinkRaw { flags: 3, ..valid };
    assert!(BufferLatestLinkInfo::from_io_changed(13, Some(unknown_flag), size, DESCRIPTOR_SIZE).is_none());
    let bad_fd = BufferLatestLinkRaw { notify_fd: -2, ..valid };
    assert!(BufferLatestLinkInfo::from_io_changed(13, Some(bad_fd), size, DESCRIPTOR_SIZE).is_none());
    let no_mailbox = BufferLatestLinkRaw { io_present: false, ..valid };
    assert!(BufferLatestLinkInfo::from_io_changed(13, Some(no_mailbox), size, DESCRIPTOR_SIZE).is_none());
    let retired_without_mailbox = BufferLatestLinkRaw { flags: 0, io_present: false, ..valid };
    assert_eq!(
        BufferLatestLinkInfo::from_io_changed(13, Some(retired_without_mailbox), size, DESCRIPTOR_SIZE),
        Some(BufferLatestLinkInfo { id: 3, active: false, notification_fd: None })
    );
}

#[test]
fn notification_spins_follow_the_policy() {
    assert_eq!(BufferLatestWaitPolicy::BusySpin.notification_spin_iterations(), None);
    assert_eq!(BufferLatestWaitPolicy::EventFd.notification_spin_iterations(), Some(0));
    assert_eq!(
        BufferLatestWaitPolicy::Hybrid { spin_iterations: 9 }.notification_spin_iterations(),
        Some(9)
    );
}

#[test]
fn configuring_a_port_sets_only_the_wait_property() {
    let mut properties = Properties::new();
    properties.insert("node.name", "receiver");
    BufferLatestWaitPolicy::EventFd.configure_port(&mut properties);
    assert_eq!(properties.get(BUFFER_LATEST_WAIT_PROPERTY), Some("eventfd"));
    BufferLatestWaitPolicy::Hybrid { spin_iterations: 4 }.configure_port(&mut properties);
    assert_eq!(properties.get(BUFFER_LATEST_WAIT_PROPERTY), Some("hybrid"));
    assert_eq!(properties.get("node.name"), Some("receiver"));
}

#[test]
fn wait_keeps_one_policy_and_resets_after_work() {
    let policy = BufferLatestWaitPolicy::Hybrid { spin_iterations: 1 };
    let mut wait = BufferLatestWait::new();
    let mut deadline = SpinDeadline::new(None);
    assert_eq!(wait.start(policy, Ok(5)), Ok(()));
    assert_eq!(wait.empty_poll(&mut deadline), BufferLatestWaitStep::Retry);
    assert_eq!(wait.empty_poll(&mut deadline), BufferLatestWaitStep::Wait(5));
    wait.found();
    assert_eq!(wait.empty_poll(&mut deadline), BufferLatestWaitStep::Retry);
    assert_eq!(
        wait.start(BufferLatestWaitPolicy::BusySpin, Ok(5)),
        Err(BufferLatestWaitError::PolicyChanged)
    );
    assert_eq!(wait.start(policy, Ok(5)), Ok(()));
}

#[test]
fn a_policy_with_the_same_eventfd_and_spins_is_still_a_change() {
    let mut wait = BufferLatestWait::new();
    assert_eq!(wait.start(BufferLatestWaitPolicy::EventFd, Ok(5)), Ok(()));
    assert_eq!(
        wait.start(BufferLatestWaitPolicy::Hybrid { spin_iterations: 0 }, Ok(5)),
        Err(BufferLatestWaitError::PolicyChanged)
    );
}

#[test]
fn eventfd_policies_fail_without_an_eventfd() {
    let mut wait = BufferLatestWait::new();
    assert_eq!(
        wait.start(BufferLatestWaitPolicy::EventFd, Err(95)),
        Err(BufferLatestWaitError::Os(95))
    );
    assert_eq!(wait.start(BufferLatestWaitPolicy::BusySpin, Err(95)), Ok(()));
}

#[test]
fn expired_deadline_ends_a_spinning_wait() {
    let mut wait = BufferLatestWait::new();
    let mut deadline = SpinDeadline::new(Some(Instant::now()));
    assert_eq!(wait.start(BufferLatestWaitPolicy::BusySpin, Err(95)), Ok(()));
    assert_eq!(wait.empty_poll(&mut deadline), BufferLatestWaitStep::CheckDeadline);
    let reached = deadline.reached();
    assert!(reached);
    assert_eq!(
        wait.deadline_checked(&mut deadline, reached),
        BufferLatestWaitStep::TimedOut
    );
}

#[test]
fn a_clock_verdict_decides_the_step_and_restarts_the_countdown() {
    let wait = BufferLatestWait::new();
    let mut deadline = SpinDeadline::new(Some(Instant::now() + Duration::from_secs(3_600)));
    assert!(deadline.poll());
    assert_eq!(wait.deadline_checked(&mut deadline, false), BufferLatestWaitStep::Retry);
    assert_eq!(
        deadline.polls_until_check,
        BUFFER_LATEST_SPIN_DEADLINE_CHECK_INTERVAL - 1
    );
    assert!(!deadline.reached());
    assert!(!deadline.poll());
    assert_eq!(
        deadline.polls_until_check,
        BUFFER_LATEST_SPIN_DEADLINE_CHECK_INTERVAL - 2
    );

    let mut deadline = SpinDeadline::new(Some(Instant::now() + Duration::from_secs(3_600)));
    assert!(deadline.poll());
    assert_eq!(wait.deadline_checked(&mut deadline, true), BufferLatestWaitStep::TimedOut);
}

#[test]
fn a_changed_eventfd_under_the_same_policy_is_refused() {
    let mut wait = BufferLatestWait::new();
    assert_eq!(wait.start(BufferLatestWaitPolicy::EventFd, Ok(5)), Ok(()));
    assert_eq!(
        wait.start(BufferLatestWaitPolicy::EventFd, Ok(6)),
        Err(BufferLatestWaitError::EventFdChanged)
    );
    assert_eq!(wait.start(BufferLatestWaitPolicy::EventFd, Ok(5)), Ok(()));
}

const NONE: PollEvents = PollEvents { invalid: false, error: false, hangup: false };

#[test]
fn eventfd_results_are_advisory() {
    assert_eq!(eventfd_drain_step(8, OsErrorKind::Other), EventfdDrainStep::Drained);
    assert_eq!(eventfd_drain_step(4, OsErrorKind::Other), EventfdDrainStep::ShortRead);
    assert_eq!(eventfd_drain_step(-1, OsErrorKind::Interrupted), EventfdDrainStep::Retry);
    assert_eq!(eventfd_drain_step(-1, OsErrorKind::WouldBlock), EventfdDrainStep::Drained);
    assert_eq!(eventfd_drain_step(-1, OsErrorKind::Other), EventfdDrainStep::Failed);

    assert_eq!(eventfd_poll_step(1, NONE, OsErrorKind::Other), EventfdPollStep::Readable);
    assert_eq!(eventfd_poll_step(1, PollEvents { invalid: true, ..NONE }, OsErrorKind::Other), EventfdPollStep::BadDescriptor);
    assert_eq!(eventfd_poll_step(1, PollEvents { hangup: true, ..NONE }, OsErrorKind::Other), EventfdPollStep::Closed);
    assert_eq!(eventfd_poll_step(0, NONE, OsErrorKind::Other), EventfdPollStep::TimedOut);
    assert_eq!(eventfd_poll_step(-1, NONE, OsErrorKind::Interrupted), EventfdPollStep::Retry);
    assert_eq!(eventfd_poll_step(-1, NONE, OsErrorKind::Other), EventfdPollStep::Failed);
}

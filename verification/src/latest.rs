//! Receiver-side waiting for graph-independent latest-buffer links.

use vstd::prelude::*;

use crate::properties::Properties;

verus! {

/// SPA I/O identifier for the graph-independent latest-buffer area.
pub const BUFFER_LATEST_IO_ID: u32 = 11;

/// SPA I/O identifier for the process-local latest-buffer notification fd.
pub const BUFFER_LATEST_NOTIFY_IO_ID: u32 = 12;

/// SPA I/O identifier for one process-local latest-buffer link descriptor.
pub const BUFFER_LATEST_LINK_IO_ID: u32 = 13;

/// Input-port property used to select latest-buffer receiver waiting.
pub const BUFFER_LATEST_WAIT_PROPERTY: &'static str = "port.buffer-latest.wait";

/// Empty spin iterations between monotonic deadline checks.
///
/// BusySpin and Hybrid use an iteration bound instead of reading the clock on
/// every empty shared-state poll. The first empty poll checks the deadline;
/// subsequent checks are separated by at most this many empty polls.
pub const BUFFER_LATEST_SPIN_DEADLINE_CHECK_INTERVAL: u32 = 256;

/// The `flags` bit of a link descriptor that installs the link.
pub const BUFFER_LATEST_LINK_ACTIVE: u32 = 1;

/// The fields of one latest-buffer link descriptor as the shared area holds
/// them; `io_present` tells whether its mailbox pointer is non-null.
#[derive(Clone, Copy, Debug, PartialEq, Eq, Structural)]
pub struct BufferLatestLinkRaw {
    pub id: u32,
    pub flags: u32,
    pub io_present: bool,
    pub notify_fd: i32,
    pub reserved: u32,
}

/// Snapshot of one latest-buffer link change delivered by `io_changed`.
#[derive(Clone, Copy, Debug, PartialEq, Eq, Structural)]
pub struct BufferLatestLinkInfo {
    /// Process-local link/mix identifier.
    pub id: u32,
    /// Whether this descriptor installs or retires the link.
    pub active: bool,
    /// Advisory notification descriptor, when negotiated for this link.
    pub notification_fd: Option<i32>,
}

/// Whether a descriptor is well formed: no reserved bits, no unknown flags,
/// a descriptor of `-1` or more, and a mailbox for an installing link.
pub open spec fn link_descriptor_valid(raw: BufferLatestLinkRaw) -> bool {
    &&& raw.reserved == 0
    &&& raw.flags & !BUFFER_LATEST_LINK_ACTIVE == 0
    &&& raw.notify_fd >= -1
    &&& raw.flags & BUFFER_LATEST_LINK_ACTIVE != 0 ==> raw.io_present
}

/// The snapshot that a descriptor decodes to, or `None` for another I/O
/// type, a missing or short area, or an invalid descriptor.
pub open spec fn spec_link_info(
    io_id: u32,
    area: Option<BufferLatestLinkRaw>,
    size: u32,
    descriptor_size: usize,
) -> Option<BufferLatestLinkInfo> {
    match area {
        Some(raw) => if io_id == BUFFER_LATEST_LINK_IO_ID && size >= descriptor_size
            && link_descriptor_valid(raw) {
            Some(
                BufferLatestLinkInfo {
                    id: raw.id,
                    active: raw.flags & BUFFER_LATEST_LINK_ACTIVE != 0,
                    notification_fd: if raw.notify_fd >= 0 {
                        Some(raw.notify_fd)
                    } else {
                        None
                    },
                },
            )
        } else {
            None
        },
        None => None,
    }
}

impl BufferLatestLinkInfo {
    /// Decodes a latest-buffer link descriptor from an `io_changed` callback.
    ///
    /// `area` is the descriptor read from the callback's area, or `None` when
    /// the area pointer is null; `descriptor_size` is the native size of a
    /// descriptor. Returns `None` for another I/O type, a missing or short
    /// area, or an invalid descriptor. The shared mailbox pointer itself
    /// remains private to the port.
    pub fn from_io_changed(
        io_id: u32,
        area: Option<BufferLatestLinkRaw>,
        size: u32,
        descriptor_size: usize,
    ) -> (r: Option<BufferLatestLinkInfo>)
        ensures
            r == spec_link_info(io_id, area, size, descriptor_size),
    {
        let raw = match area {
            Some(raw) => raw,
            None => return None,
        };
        if io_id != BUFFER_LATEST_LINK_IO_ID || (size as usize) < descriptor_size {
            return None;
        }
        if raw.reserved != 0 || raw.flags & !BUFFER_LATEST_LINK_ACTIVE != 0 || raw.notify_fd < -1
            || (raw.flags & BUFFER_LATEST_LINK_ACTIVE != 0 && !raw.io_present) {
            return None;
        }
        Some(
            BufferLatestLinkInfo {
                id: raw.id,
                active: raw.flags & BUFFER_LATEST_LINK_ACTIVE != 0,
                notification_fd: if raw.notify_fd >= 0 {
                    Some(raw.notify_fd)
                } else {
                    None
                },
            },
        )
    }
}

/// Receiver-side waiting policy for a graph-independent latest-buffer link.
#[derive(Clone, Copy, Debug, PartialEq, Eq, Structural)]
pub enum BufferLatestWaitPolicy {
    /// Poll shared state continuously without allocating or signaling an fd.
    BusySpin,
    /// Recheck shared state around a blocking eventfd wait.
    EventFd,
    /// Poll shared state for a bounded number of iterations, then use eventfd.
    Hybrid { spin_iterations: u32 },
}

impl BufferLatestWaitPolicy {
    /// Value to set on [`BUFFER_LATEST_WAIT_PROPERTY`] before connecting.
    pub open spec fn spec_port_property_value(self) -> Seq<char> {
        match self {
            BufferLatestWaitPolicy::BusySpin => "busy-spin"@,
            BufferLatestWaitPolicy::EventFd => "eventfd"@,
            BufferLatestWaitPolicy::Hybrid { .. } => "hybrid"@,
        }
    }

    /// Value to set on [`BUFFER_LATEST_WAIT_PROPERTY`] before connecting.
    pub fn port_property_value(self) -> (r: &'static str)
        ensures
            r@ == self.spec_port_property_value(),
    {
        match self {
            BufferLatestWaitPolicy::BusySpin => "busy-spin",
            BufferLatestWaitPolicy::EventFd => "eventfd",
            BufferLatestWaitPolicy::Hybrid { .. } => "hybrid",
        }
    }

    /// Configures port properties for this policy before the port is added:
    /// sets [`BUFFER_LATEST_WAIT_PROPERTY`] and leaves every other property.
    pub fn configure_port(self, properties: &mut Properties)
        ensures
            final(properties).spec_get(BUFFER_LATEST_WAIT_PROPERTY@) == Some(
                self.spec_port_property_value(),
            ),
            forall|other: Seq<char>|
                other != BUFFER_LATEST_WAIT_PROPERTY@ ==> #[trigger] final(properties).spec_get(
                    other,
                ) == old(properties).spec_get(other),
    {
        properties.insert(BUFFER_LATEST_WAIT_PROPERTY, self.port_property_value());
    }

    /// Spins before each eventfd wait; `None` when no eventfd is used.
    pub open spec fn spec_notification_spin_iterations(self) -> Option<u32> {
        match self {
            BufferLatestWaitPolicy::BusySpin => None,
            BufferLatestWaitPolicy::EventFd => Some(0),
            BufferLatestWaitPolicy::Hybrid { spin_iterations } => Some(spin_iterations),
        }
    }

    /// The eventfd and spins a worker waits with under this policy, given
    /// the port's eventfd lookup `fd` (`Err(errno)` when none was
    /// negotiated). EventFd and Hybrid fail without an eventfd; they never
    /// fall back to busy-spinning.
    pub fn notification(self, fd: Result<i32, i32>) -> (r: Result<
        Option<BufferLatestNotification>,
        i32,
    >)
        ensures
            match self.spec_notification_spin_iterations() {
                None => r == Ok::<_, i32>(None::<BufferLatestNotification>),
                Some(spin_iterations) => match fd {
                    Ok(fd) => r == Ok::<_, i32>(
                        Some(BufferLatestNotification { fd, spin_iterations }),
                    ),
                    Err(errno) => r == Err::<Option<BufferLatestNotification>, _>(errno),
                },
            },
    {
        match self.notification_spin_iterations() {
            None => Ok(None),
            Some(spin_iterations) => match fd {
                Ok(fd) => Ok(Some(BufferLatestNotification { fd, spin_iterations })),
                Err(errno) => Err(errno),
            },
        }
    }

    /// Spins before each eventfd wait; `None` when no eventfd is used.
    pub fn notification_spin_iterations(self) -> (r: Option<u32>)
        ensures
            r == self.spec_notification_spin_iterations(),
    {
        match self {
            BufferLatestWaitPolicy::BusySpin => None,
            BufferLatestWaitPolicy::EventFd => Some(0),
            BufferLatestWaitPolicy::Hybrid { spin_iterations } => Some(spin_iterations),
        }
    }
}

/// Producer-local accounting for bounded latest-buffer acquisition.
#[derive(Clone, Copy, Debug, Default, PartialEq, Eq)]
pub struct BufferLatestStats {
    /// Output acquisition duty cycles.
    pub dequeue_attempts: u64,
    /// Returned consumer leases examined.
    pub recycle_returns: u64,
    /// Reusable pool slots examined.
    pub buffer_probes: u64,
    /// Attempts that found no safely reusable allocation.
    pub pool_exhaustions: u64,
    /// Unclaimed publications reclaimed after a full scan.
    pub ready_reclaims: u64,
    /// Subscriber ready slots withdrawn while reclaiming a pool buffer.
    pub ready_withdrawals: u64,
    /// Output buffers offered to the active fan-out set.
    pub publications: u64,
    /// Active subscriber mailboxes visited by publication.
    pub subscriber_visits: u64,
    /// Subscriber-local leases created by publication.
    pub subscriber_deliveries: u64,
    /// Subscriber-local ready IDs replaced by a newer publication.
    pub subscriber_supersessions: u64,
    /// Retired subscriber slots acknowledged by the producer.
    pub subscriber_retirements: u64,
    /// Outstanding subscriber leases recovered during retirement.
    pub retired_leases: u64,
    /// Publications that raced with removal and reached no active subscriber.
    pub zero_recipient_publications: u64,
    /// Largest number of pool slots examined by one scan.
    pub max_buffer_probes: u32,
    /// Largest aggregate recycle drain in one acquisition attempt.
    pub max_recycle_returns: u32,
    /// Largest number of ready mailboxes withdrawn in one reclaim attempt.
    pub max_ready_withdrawals: u32,
    /// Largest active fan-out visited by one publication.
    pub max_subscriber_visits: u32,
}

/// What a latest-buffer agent does after one poll of shared state.
#[derive(Clone, Copy, Debug, PartialEq, Eq, Structural)]
pub enum BufferLatestIdleAction {
    /// Work was found; the idle phase restarts.
    Worked,
    /// Poll shared state again.
    Spin,
    /// Wait for the eventfd `fd`.
    Wait(i32),
}

/// Calls `core::hint::spin_loop`, which only hints the processor.
#[verifier::external_body]
fn spin_hint() {
    core::hint::spin_loop()
}

/// The eventfd that a latest-buffer agent waits on, and the empty polls it
/// spins before each wait.
#[derive(Clone, Copy, Debug, PartialEq, Eq, Structural)]
pub struct BufferLatestNotification {
    pub fd: i32,
    pub spin_iterations: u32,
}

/// Work-count idle state for one latest-buffer agent.
///
/// A positive work count resets Hybrid to its prepared spin phase. Advisory
/// wakeups do not reset it; only authoritative shared-state work does.
#[derive(Clone, Copy, Debug, PartialEq, Eq, Structural)]
pub struct BufferLatestIdle {
    /// The eventfd and the spins before each wait; `None` busy-spins.
    pub notification: Option<BufferLatestNotification>,
    /// Empty polls spun since the last work.
    pub idle_cycles: u32,
}

impl BufferLatestIdle {
    pub fn new(notification: Option<BufferLatestNotification>) -> (r: BufferLatestIdle)
        ensures
            r == (BufferLatestIdle { notification, idle_cycles: 0 }),
    {
        BufferLatestIdle { notification, idle_cycles: 0 }
    }

    /// The action after a poll that found `work_count` items.
    pub fn idle(&mut self, work_count: usize) -> (r: BufferLatestIdleAction)
        ensures
            final(self).notification == old(self).notification,
            work_count > 0 ==> r == BufferLatestIdleAction::Worked && final(self).idle_cycles
                == 0,
            work_count == 0 ==> match old(self).notification {
                None => r == BufferLatestIdleAction::Spin && final(self).idle_cycles == old(self).idle_cycles,
                Some(n) => if old(self).idle_cycles < n.spin_iterations {
                    r == BufferLatestIdleAction::Spin && final(self).idle_cycles == old(self).idle_cycles + 1
                } else {
                    r == BufferLatestIdleAction::Wait(n.fd) && final(self).idle_cycles == old(self).idle_cycles
                },
            },
    {
        if work_count > 0 {
            self.reset();
            return BufferLatestIdleAction::Worked;
        }
        match self.notification {
            None => {
                spin_hint();
                BufferLatestIdleAction::Spin
            },
            Some(n) => {
                if self.idle_cycles < n.spin_iterations {
                    self.idle_cycles = self.idle_cycles + 1;
                    spin_hint();
                    BufferLatestIdleAction::Spin
                } else {
                    BufferLatestIdleAction::Wait(n.fd)
                }
            },
        }
    }

    /// Restarts the prepared spin phase.
    pub fn reset(&mut self)
        ensures
            *final(self) == (BufferLatestIdle { idle_cycles: 0, ..*old(self) }),
    {
        self.idle_cycles = 0;
    }
}

/// After work, a Hybrid agent spins exactly `max_spins` empty polls and then
/// waits on its eventfd at every further empty poll until work resets it.
pub open spec fn hybrid_action_after(fd: i32, max_spins: u32, empty_polls: nat) -> BufferLatestIdleAction {
    if empty_polls < max_spins {
        BufferLatestIdleAction::Spin
    } else {
        BufferLatestIdleAction::Wait(fd)
    }
}

/// The idle state of an agent with notification `(fd, max_spins)` after
/// `empty_polls` empty polls since work reset it.
pub open spec fn idle_cycles_after(max_spins: u32, empty_polls: nat) -> u32 {
    if empty_polls < max_spins {
        empty_polls as u32
    } else {
        max_spins
    }
}

/// The idle phase restarts only after work: starting from a reset state,
/// the `n`th empty poll spins while fewer than `max_spins` polls were empty
/// and waits afterwards.
pub proof fn lemma_hybrid_idle_phases(fd: i32, max_spins: u32, empty_polls: nat)
    ensures
        idle_cycles_after(max_spins, empty_polls) < max_spins ==> hybrid_action_after(
            fd,
            max_spins,
            empty_polls,
        ) == BufferLatestIdleAction::Spin && idle_cycles_after(max_spins, empty_polls + 1)
            == idle_cycles_after(max_spins, empty_polls) + 1,
        idle_cycles_after(max_spins, empty_polls) >= max_spins ==> hybrid_action_after(
            fd,
            max_spins,
            empty_polls,
        ) == BufferLatestIdleAction::Wait(fd) && idle_cycles_after(max_spins, empty_polls + 1)
            == idle_cycles_after(max_spins, empty_polls),
{
}

/// The state machine of [`BufferLatestIdle::idle`] follows the phases of
/// [`hybrid_action_after`]: one more empty poll moves a state with
/// `empty_polls` empty polls to the state with one more.
pub proof fn lemma_idle_follows_phases(
    before: BufferLatestIdle,
    after: BufferLatestIdle,
    action: BufferLatestIdleAction,
    fd: i32,
    max_spins: u32,
    empty_polls: nat,
)
    requires
        before.notification == Some(BufferLatestNotification { fd, spin_iterations: max_spins }),
        before.idle_cycles == idle_cycles_after(max_spins, empty_polls),
        after.notification == before.notification,
        before.idle_cycles < max_spins ==> action == BufferLatestIdleAction::Spin
            && after.idle_cycles == before.idle_cycles + 1,
        before.idle_cycles >= max_spins ==> action == BufferLatestIdleAction::Wait(fd)
            && after.idle_cycles == before.idle_cycles,
    ensures
        action == hybrid_action_after(fd, max_spins, empty_polls),
        after.idle_cycles == idle_cycles_after(max_spins, empty_polls + 1),
{
}

/// `std::time::Instant`, a reading of the monotonic clock.
#[verifier::external_type_specification]
#[verifier::external_body]
pub struct ExInstant(std::time::Instant);

/// Calls `Instant::now`; nothing is stated of the clock reading.
#[verifier::external_body]
fn instant_now() -> std::time::Instant {
    std::time::Instant::now()
}

/// Whether the instant `now` is at or after `deadline`, as `>=` on
/// `std::time::Instant` compares two instants.
pub uninterp spec fn instant_at_or_after(now: std::time::Instant, deadline: std::time::Instant) -> bool;

/// Compares two instants with `>=` on `std::time::Instant`: the result is
/// the named comparison of exactly these two instants, in this order.
#[verifier::external_body]
fn instant_reached(now: &std::time::Instant, deadline: &std::time::Instant) -> (r: bool)
    ensures
        r == instant_at_or_after(*now, *deadline),
{
    now >= deadline
}

/// Amortized deadline checks for empty spin polls.
pub struct SpinDeadline {
    deadline: Option<std::time::Instant>,
    /// Empty polls left before the next clock read.
    pub polls_until_check: u32,
}

impl SpinDeadline {
    pub closed spec fn spec_has_deadline(&self) -> bool {
        self.deadline is Some
    }

    /// The deadline, if any.
    pub closed spec fn spec_deadline(&self) -> Option<std::time::Instant> {
        self.deadline
    }

    /// Empty polls left before the next clock read.
    pub closed spec fn spec_polls_until_check(&self) -> u32 {
        self.polls_until_check
    }

    pub fn new(deadline: Option<std::time::Instant>) -> (r: SpinDeadline)
        ensures
            r.spec_has_deadline() == deadline is Some,
            r.spec_polls_until_check() == 0,
    {
        SpinDeadline { deadline, polls_until_check: 0 }
    }

    /// Counts one empty poll against the deadline and says whether the
    /// clock must be read now: only with a deadline whose countdown ran out.
    /// A due check leaves the countdown at zero until
    /// [`Self::observe`] records the reading.
    pub fn poll(&mut self) -> (due: bool)
        ensures
            final(self).spec_deadline() == old(self).spec_deadline(),
            final(self).spec_has_deadline() == old(self).spec_has_deadline(),
            due == (old(self).spec_has_deadline() && old(self).spec_polls_until_check() == 0),
            !old(self).spec_has_deadline() ==> final(self).spec_polls_until_check() == old(self).spec_polls_until_check(),
            old(self).spec_has_deadline() && old(self).spec_polls_until_check() > 0 ==> final(self).spec_polls_until_check() == old(self).spec_polls_until_check() - 1,
            due ==> final(self).spec_polls_until_check() == 0,
    {
        if self.deadline.is_none() {
            return false;
        }
        if self.polls_until_check > 0 {
            self.polls_until_check = self.polls_until_check - 1;
            return false;
        }
        true
    }

    /// Reads the clock: whether the reading is at or after the deadline.
    /// Without a deadline it never is. What the clock reads is not stated.
    pub fn reached(&self) -> (r: bool)
        ensures
            !self.spec_has_deadline() ==> !r,
            self.spec_has_deadline() ==> exists|now: std::time::Instant|
                r == instant_at_or_after(now, self.spec_deadline()->Some_0),
    {
        match &self.deadline {
            Some(deadline) => {
                let now = instant_now();
                instant_reached(&now, deadline)
            },
            None => false,
        }
    }

    /// Records the clock verdict `reached` of a due check: restarts the
    /// countdown and reports the verdict as the check's result.
    pub fn observe(&mut self, reached: bool) -> (r: bool)
        ensures
            r == reached,
            final(self).spec_deadline() == old(self).spec_deadline(),
            final(self).spec_has_deadline() == old(self).spec_has_deadline(),
            final(self).spec_polls_until_check() == BUFFER_LATEST_SPIN_DEADLINE_CHECK_INTERVAL - 1,
    {
        self.polls_until_check = BUFFER_LATEST_SPIN_DEADLINE_CHECK_INTERVAL - 1;
        reached
    }

    /// Whether the deadline passed, reading the clock only when the
    /// iteration bound is reached: [`Self::poll`], then, when due,
    /// [`Self::reached`] and [`Self::observe`]. Without a deadline this
    /// never expires.
    pub fn expired(&mut self) -> (r: bool)
        ensures
            final(self).spec_deadline() == old(self).spec_deadline(),
            final(self).spec_has_deadline() == old(self).spec_has_deadline(),
            old(self).spec_has_deadline() && old(self).spec_polls_until_check() == 0 ==> exists|
                now: std::time::Instant,
            | r == instant_at_or_after(now, old(self).spec_deadline()->Some_0),
            !old(self).spec_has_deadline() ==> !r && final(self).spec_polls_until_check() == old(self).spec_polls_until_check(),
            old(self).spec_has_deadline() && old(self).spec_polls_until_check() > 0 ==> !r && final(self).spec_polls_until_check() == old(self).spec_polls_until_check() - 1,
            old(self).spec_has_deadline() && old(self).spec_polls_until_check() == 0 ==> final(self).spec_polls_until_check() == BUFFER_LATEST_SPIN_DEADLINE_CHECK_INTERVAL - 1,
            old(self).spec_has_deadline() ==> final(self).spec_polls_until_check()
                == countdown_after_poll(old(self).spec_polls_until_check()),
    {
        if self.poll() {
            let reached = self.reached();
            self.observe(reached)
        } else {
            false
        }
    }
}

/// The countdown of a deadline after one empty poll: a poll with an
/// exhausted countdown reads the clock and restarts it.
pub open spec fn countdown_after_poll(polls_until_check: u32) -> u32 {
    if polls_until_check > 0 {
        (polls_until_check - 1) as u32
    } else {
        (BUFFER_LATEST_SPIN_DEADLINE_CHECK_INTERVAL - 1) as u32
    }
}

/// The countdown after `polls` empty polls from `polls_until_check`.
pub open spec fn countdown_after(polls_until_check: u32, polls: nat) -> u32
    decreases polls,
{
    if polls == 0 {
        polls_until_check
    } else {
        countdown_after_poll(countdown_after(polls_until_check, (polls - 1) as nat))
    }
}

/// Deadline observation is delayed by at most the check interval: from a
/// fresh deadline (countdown zero) the first empty poll reads the clock,
/// and from any countdown that polls reach, the next clock read comes
/// within [`BUFFER_LATEST_SPIN_DEADLINE_CHECK_INTERVAL`] empty polls.
pub proof fn lemma_spin_deadline_bounded(polls_until_check: u32, polls: nat)
    requires
        polls_until_check < BUFFER_LATEST_SPIN_DEADLINE_CHECK_INTERVAL,
    ensures
        countdown_after(polls_until_check, polls) < BUFFER_LATEST_SPIN_DEADLINE_CHECK_INTERVAL,
        countdown_after(polls_until_check, polls_until_check as nat) == 0,
        forall|i: nat| i < polls_until_check ==> #[trigger] countdown_after(polls_until_check, i) > 0,
    decreases polls,
{
    if polls > 0 {
        lemma_spin_deadline_bounded(polls_until_check, (polls - 1) as nat);
    }
    lemma_countdown_steps(polls_until_check, polls_until_check as nat);
}

/// Over many empty polls, a fresh deadline reads the clock at polls
/// 1, N + 1, 2N + 1, ... (N the check interval) and at no other poll:
/// after `polls` empty polls the countdown is zero exactly when `polls` is a
/// multiple of N, and otherwise counts the polls left to the next multiple.
pub proof fn lemma_spin_deadline_reads_every_interval(polls: nat)
    ensures
        countdown_after(0, polls) == if polls % (BUFFER_LATEST_SPIN_DEADLINE_CHECK_INTERVAL as nat) == 0 {
            0int
        } else {
            BUFFER_LATEST_SPIN_DEADLINE_CHECK_INTERVAL - polls % (
            BUFFER_LATEST_SPIN_DEADLINE_CHECK_INTERVAL as nat)
        },
        countdown_after(0, polls) == 0 <==> polls % (BUFFER_LATEST_SPIN_DEADLINE_CHECK_INTERVAL as nat) == 0,
    decreases polls,
{
    if polls > 0 {
        lemma_spin_deadline_reads_every_interval((polls - 1) as nat);
        assert(polls % 256 == 0 ==> (polls - 1) % 256 == 255);
        assert(polls % 256 != 0 ==> (polls - 1) % 256 == polls % 256 - 1);
    }
}

/// Before the countdown is exhausted, each empty poll lowers it by one.
proof fn lemma_countdown_steps(polls_until_check: u32, polls: nat)
    requires
        polls <= polls_until_check,
    ensures
        countdown_after(polls_until_check, polls) == polls_until_check - polls,
        forall|i: nat| i < polls ==> #[trigger] countdown_after(polls_until_check, i) > 0,
    decreases polls,
{
    if polls > 0 {
        lemma_countdown_steps(polls_until_check, (polls - 1) as nat);
    }
}

/// The `poll` timeout for a wait of `secs` seconds and `subsec_nanos`
/// nanoseconds: whole milliseconds rounded up, saturated at `i32::MAX`.
pub open spec fn spec_timeout_millis(secs: u64, subsec_nanos: u32) -> int {
    let millis = secs * 1000 + subsec_nanos / 1_000_000 + if subsec_nanos % 1_000_000 != 0 {
        1int
    } else {
        0int
    };
    if millis > i32::MAX {
        i32::MAX as int
    } else {
        millis
    }
}

/// A `poll` timeout never ends a wait early and overshoots by less than a
/// millisecond: for a wait of `secs` seconds and `subsec_nanos`
/// nanoseconds that fits, the timeout is the least whole number of
/// milliseconds that covers it; a longer wait gets the largest timeout.
pub proof fn lemma_timeout_covers_wait(secs: u64, subsec_nanos: u32)
    requires
        subsec_nanos < 1_000_000_000,
    ensures
        ({
            let wait = secs * 1_000_000_000 + subsec_nanos;
            let millis = spec_timeout_millis(secs, subsec_nanos);
            &&& 0 <= millis <= i32::MAX
            &&& wait <= i32::MAX * 1_000_000 ==> millis * 1_000_000 >= wait && (millis - 1)
                * 1_000_000 < wait
            &&& wait > i32::MAX * 1_000_000 ==> millis == i32::MAX
        }),
{
}

/// The `poll` timeout for a wait of `secs` seconds and `subsec_nanos`
/// nanoseconds, rounded up to whole milliseconds and saturated.
pub fn timeout_millis(secs: u64, subsec_nanos: u32) -> (r: i32)
    requires
        subsec_nanos < 1_000_000_000,
    ensures
        r == spec_timeout_millis(secs, subsec_nanos),
{
    let millis: u128 = (secs as u128) * 1000 + (subsec_nanos / 1_000_000) as u128 + if subsec_nanos
        % 1_000_000 != 0 {
        1u128
    } else {
        0u128
    };
    if millis > 0x7fff_ffff {
        0x7fff_ffff
    } else {
        millis as i32
    }
}

/// The whole seconds of a duration, as `Duration::as_secs` returns them.
pub uninterp spec fn duration_whole_secs(duration: core::time::Duration) -> u64;

/// The fractional part of a duration in nanoseconds, as
/// `Duration::subsec_nanos` returns it.
pub uninterp spec fn duration_subsec_nanos(duration: core::time::Duration) -> u32;

/// Calls `Duration::as_secs`, which returns the whole seconds of `duration`.
#[verifier::external_body]
fn duration_as_secs(duration: &core::time::Duration) -> (r: u64)
    ensures
        r == duration_whole_secs(*duration),
{
    duration.as_secs()
}

/// Calls `Duration::subsec_nanos`, which returns the fractional part of
/// `duration` in nanoseconds; its documentation promises a value below one
/// billion.
#[verifier::external_body]
fn duration_subsec(duration: &core::time::Duration) -> (r: u32)
    ensures
        r == duration_subsec_nanos(*duration),
        r < 1_000_000_000,
{
    duration.subsec_nanos()
}

/// The `poll` timeout for `duration`: whole milliseconds rounded up and
/// saturated at `i32::MAX`.
pub fn poll_timeout_millis(duration: core::time::Duration) -> (r: i32)
    ensures
        r == spec_timeout_millis(duration_whole_secs(duration), duration_subsec_nanos(duration)),
{
    let secs = duration_as_secs(&duration);
    let nanos = duration_subsec(&duration);
    timeout_millis(secs, nanos)
}

/// How a failed system call failed, as far as the eventfd steps care.
#[derive(Clone, Copy, Debug, PartialEq, Eq, Structural)]
pub enum OsErrorKind {
    /// The call was interrupted by a signal.
    Interrupted,
    /// The call would have blocked.
    WouldBlock,
    /// Any other failure.
    Other,
}

/// The events that a `poll` reported for a descriptor, besides readability.
#[derive(Clone, Copy, Debug, PartialEq, Eq, Structural)]
pub struct PollEvents {
    /// The descriptor is not open.
    pub invalid: bool,
    /// An error condition.
    pub error: bool,
    /// The peer hung up.
    pub hangup: bool,
}

/// What one `read` of eventfd counter bytes means for a drain.
#[derive(Clone, Copy, Debug, PartialEq, Eq, Structural)]
pub enum EventfdDrainStep {
    /// The counter was read, or there was nothing to read.
    Drained,
    /// The read was interrupted; read again.
    Retry,
    /// The read returned fewer than eight bytes.
    ShortRead,
    /// The read failed with the reported error.
    Failed,
}

/// The meaning of a `read` of eight counter bytes that returned `result`,
/// with `error` the kind of a failed read. Notification is advisory: an
/// empty counter is as good as a drained one.
pub fn eventfd_drain_step(result: isize, error: OsErrorKind) -> (r: EventfdDrainStep)
    ensures
        r == (if result == 8 {
            EventfdDrainStep::Drained
        } else if result >= 0 {
            EventfdDrainStep::ShortRead
        } else {
            match error {
                OsErrorKind::Interrupted => EventfdDrainStep::Retry,
                OsErrorKind::WouldBlock => EventfdDrainStep::Drained,
                OsErrorKind::Other => EventfdDrainStep::Failed,
            }
        }),
{
    if result == 8 {
        EventfdDrainStep::Drained
    } else if result >= 0 {
        EventfdDrainStep::ShortRead
    } else {
        match error {
            OsErrorKind::Interrupted => EventfdDrainStep::Retry,
            OsErrorKind::WouldBlock => EventfdDrainStep::Drained,
            OsErrorKind::Other => EventfdDrainStep::Failed,
        }
    }
}

/// What one `poll` of an eventfd for input means.
#[derive(Clone, Copy, Debug, PartialEq, Eq, Structural)]
pub enum EventfdPollStep {
    /// The descriptor is readable.
    Readable,
    /// The timeout passed.
    TimedOut,
    /// The poll was interrupted; poll again.
    Retry,
    /// The descriptor is not open.
    BadDescriptor,
    /// The descriptor reported an error or a hang-up.
    Closed,
    /// The poll failed with the reported error.
    Failed,
}

/// The meaning of a `poll` that returned `result` with `events`, and
/// `error` the kind of a failed poll.
pub fn eventfd_poll_step(result: i32, events: PollEvents, error: OsErrorKind) -> (r: EventfdPollStep)
    ensures
        r == (if result > 0 {
            if events.invalid {
                EventfdPollStep::BadDescriptor
            } else if events.error || events.hangup {
                EventfdPollStep::Closed
            } else {
                EventfdPollStep::Readable
            }
        } else if result == 0 {
            EventfdPollStep::TimedOut
        } else if error == OsErrorKind::Interrupted {
            EventfdPollStep::Retry
        } else {
            EventfdPollStep::Failed
        }),
{
    if result > 0 {
        if events.invalid {
            EventfdPollStep::BadDescriptor
        } else if events.error || events.hangup {
            EventfdPollStep::Closed
        } else {
            EventfdPollStep::Readable
        }
    } else if result == 0 {
        EventfdPollStep::TimedOut
    } else {
        match error {
            OsErrorKind::Interrupted => EventfdPollStep::Retry,
            _ => EventfdPollStep::Failed,
        }
    }
}

/// The idle state and action after one empty poll of `idle`.
pub open spec fn idle_after_empty_poll(idle: BufferLatestIdle) -> (BufferLatestIdle, BufferLatestIdleAction) {
    match idle.notification {
        None => (idle, BufferLatestIdleAction::Spin),
        Some(n) => if idle.idle_cycles < n.spin_iterations {
            (
                BufferLatestIdle { idle_cycles: (idle.idle_cycles + 1) as u32, ..idle },
                BufferLatestIdleAction::Spin,
            )
        } else {
            (idle, BufferLatestIdleAction::Wait(n.fd))
        },
    }
}

/// The eventfd and spins that `policy` waits with, given a successful
/// eventfd lookup `fd` when the policy uses one.
pub open spec fn spec_policy_notification(policy: BufferLatestWaitPolicy, fd: Result<i32, i32>) -> Option<
    BufferLatestNotification,
> {
    match policy.spec_notification_spin_iterations() {
        Some(spin_iterations) => Some(BufferLatestNotification { fd: fd->Ok_0, spin_iterations }),
        None => None,
    }
}

/// Why a latest-buffer worker cannot start a wait.
#[derive(Clone, Copy, Debug, PartialEq, Eq, Structural)]
pub enum BufferLatestWaitError {
    /// The port has no eventfd for an eventfd-based policy; the lookup
    /// failed with this errno.
    Os(i32),
    /// The policy differs from the one of the worker's first wait.
    PolicyChanged,
    /// The policy is that of the first wait, but the port's eventfd differs
    /// from the one the worker waits on.
    EventFdChanged,
}

/// What the receiver does after a dequeue attempt found no buffer.
#[derive(Clone, Copy, Debug, PartialEq, Eq, Structural)]
pub enum BufferLatestWaitStep {
    /// Poll shared state again.
    Retry,
    /// The deadline check is due: read the clock with
    /// [`SpinDeadline::reached`] and hand the verdict to
    /// [`BufferLatestWait::deadline_checked`].
    CheckDeadline,
    /// The deadline passed during spinning.
    TimedOut,
    /// Drain `fd`, recheck shared state, then wait for `fd`.
    Wait(i32),
}

/// The policy and idle state that one latest-buffer worker keeps across
/// waits. The policy of the first wait is the worker's for its lifetime.
pub struct BufferLatestWait {
    state: Option<(BufferLatestWaitPolicy, BufferLatestIdle)>,
}

impl BufferLatestWait {
    /// The idle state, once the worker has started waiting.
    pub closed spec fn spec_idle(&self) -> Option<BufferLatestIdle> {
        match self.state {
            Some((_, idle)) => Some(idle),
            None => None,
        }
    }

    /// The policy of the worker's first wait, once it has started waiting.
    pub closed spec fn spec_policy(&self) -> Option<BufferLatestWaitPolicy> {
        match self.state {
            Some((policy, _)) => Some(policy),
            None => None,
        }
    }

    /// A worker that has not waited yet.
    pub fn new() -> (r: BufferLatestWait)
        ensures
            r.spec_idle() is None,
            r.spec_policy() is None,
    {
        BufferLatestWait { state: None }
    }

    /// Records a successful dequeue: work resets the idle phase.
    pub fn dequeued(&mut self)
        ensures
            final(self).spec_policy() == old(self).spec_policy(),
            match old(self).spec_idle() {
                Some(idle) => final(self).spec_idle() == Some(
                    BufferLatestIdle { idle_cycles: 0, ..idle },
                ),
                None => final(self).spec_idle() is None,
            },
    {
        match &mut self.state {
            Some((_, idle)) => idle.reset(),
            None => {},
        }
    }

    /// Starts one wait under `policy`, given the port's eventfd lookup `fd`
    /// (`Err(errno)` when none was negotiated).
    ///
    /// An eventfd-based policy without an eventfd fails with that errno. A
    /// policy other than the one of the worker's first wait fails with
    /// [`BufferLatestWaitError::PolicyChanged`], and an eventfd other than
    /// the stored one with [`BufferLatestWaitError::EventFdChanged`]. The
    /// first wait stores its policy and the eventfd and spins it selects.
    pub fn start(&mut self, policy: BufferLatestWaitPolicy, fd: Result<i32, i32>) -> (r: Result<
        (),
        BufferLatestWaitError,
    >)
        ensures
            policy.spec_notification_spin_iterations() is Some && fd is Err ==> r
                == Err::<(), BufferLatestWaitError>(BufferLatestWaitError::Os(fd->Err_0))
                && final(self).spec_idle() == old(self).spec_idle() && final(self).spec_policy()
                == old(self).spec_policy(),
            !(policy.spec_notification_spin_iterations() is Some && fd is Err) ==> match old(self).spec_policy() {
                Some(first) => final(self).spec_idle() == old(self).spec_idle()
                    && final(self).spec_policy() == old(self).spec_policy() && if first != policy {
                    r == Err::<(), BufferLatestWaitError>(BufferLatestWaitError::PolicyChanged)
                } else if old(self).spec_idle().unwrap().notification != spec_policy_notification(
                    policy,
                    fd,
                ) {
                    r == Err::<(), BufferLatestWaitError>(BufferLatestWaitError::EventFdChanged)
                } else {
                    r is Ok
                },
                None => r is Ok && final(self).spec_policy() == Some(policy)
                    && final(self).spec_idle() == Some(
                    BufferLatestIdle {
                        notification: spec_policy_notification(policy, fd),
                        idle_cycles: 0,
                    },
                ),
            },
    {
        let notification = match policy.notification(fd) {
            Ok(notification) => notification,
            Err(errno) => return Err(BufferLatestWaitError::Os(errno)),
        };
        match &self.state {
            Some((first, idle)) => {
                if *first != policy {
                    return Err(BufferLatestWaitError::PolicyChanged);
                }
                if idle.notification != notification {
                    return Err(BufferLatestWaitError::EventFdChanged);
                }
                Ok(())
            },
            None => {
                self.state = Some((policy, BufferLatestIdle::new(notification)));
                Ok(())
            },
        }
    }

    /// The step after a dequeue attempt found no buffer: wait on the
    /// eventfd once the spins are used up, else count the poll against the
    /// deadline and poll again, or read the clock when the check is due.
    pub fn empty_poll(&mut self, deadline: &mut SpinDeadline) -> (r: BufferLatestWaitStep)
        requires
            old(self).spec_idle() is Some,
        ensures
            final(self).spec_policy() == old(self).spec_policy(),
            final(self).spec_idle() == Some(idle_after_empty_poll(old(self).spec_idle().unwrap()).0),
            final(deadline).spec_deadline() == old(deadline).spec_deadline(),
            match idle_after_empty_poll(old(self).spec_idle().unwrap()).1 {
                BufferLatestIdleAction::Wait(fd) => r == BufferLatestWaitStep::Wait(fd)
                    && *final(deadline) == *old(deadline),
                _ => {
                    &&& r == if old(deadline).spec_has_deadline() && old(deadline).spec_polls_until_check() == 0 {
                        BufferLatestWaitStep::CheckDeadline
                    } else {
                        BufferLatestWaitStep::Retry
                    }
                    &&& final(deadline).spec_has_deadline() == old(deadline).spec_has_deadline()
                    &&& final(deadline).spec_polls_until_check() == if old(deadline).spec_has_deadline() && old(deadline).spec_polls_until_check() > 0 {
                        (old(deadline).spec_polls_until_check() - 1) as u32
                    } else {
                        old(deadline).spec_polls_until_check()
                    }
                },
            },
    {
        let action = match &mut self.state {
            Some((_, idle)) => idle.idle(0),
            None => BufferLatestIdleAction::Spin,
        };
        match action {
            BufferLatestIdleAction::Wait(fd) => BufferLatestWaitStep::Wait(fd),
            BufferLatestIdleAction::Worked | BufferLatestIdleAction::Spin => {
                if deadline.poll() {
                    BufferLatestWaitStep::CheckDeadline
                } else {
                    BufferLatestWaitStep::Retry
                }
            },
        }
    }

    /// The step after a due deadline check read the clock: the wait times
    /// out exactly when `reached`, the clock's verdict, says the deadline
    /// was reached; otherwise polling goes on with a restarted countdown.
    pub fn deadline_checked(&self, deadline: &mut SpinDeadline, reached: bool) -> (r:
        BufferLatestWaitStep)
        requires
            old(deadline).spec_has_deadline(),
            old(deadline).spec_polls_until_check() == 0,
        ensures
            r == if reached {
                BufferLatestWaitStep::TimedOut
            } else {
                BufferLatestWaitStep::Retry
            },
            final(deadline).spec_has_deadline(),
            final(deadline).spec_polls_until_check() == BUFFER_LATEST_SPIN_DEADLINE_CHECK_INTERVAL - 1,
            final(deadline).spec_deadline() == old(deadline).spec_deadline(),
    {
        if deadline.observe(reached) {
            BufferLatestWaitStep::TimedOut
        } else {
            BufferLatestWaitStep::Retry
        }
    }

    /// Records a buffer found while waiting.
    pub fn found(&mut self)
        ensures
            final(self).spec_policy() == old(self).spec_policy(),
            match old(self).spec_idle() {
                Some(idle) => final(self).spec_idle() == Some(
                    BufferLatestIdle { idle_cycles: 0, ..idle },
                ),
                None => final(self).spec_idle() is None,
            },
    {
        match &mut self.state {
            Some((_, idle)) => {
                idle.idle(1);
            },
            None => {},
        }
    }
}

} // verus!

//! The ownership protocol of progressive buffers: a producer publishes a
//! growing immutable prefix, and consumers read only what was published.

use vstd::prelude::*;

use crate::buffer::DataPlane;
use crate::ndarray::aligned;

verus! {

/// The producer stopped before the whole payload was committed.
pub const PROGRESSIVE_FLAG_INCOMPLETE: u32 = 1;

/// The producer cancelled the publication.
pub const PROGRESSIVE_FLAG_CANCELLED: u32 = 2;

/// The producer could not follow the progressive protocol.
pub const PROGRESSIVE_FLAG_PROTOCOL_ERROR: u32 = 4;

/// Terminal flags of a progressive publication.
#[derive(Clone, Copy, Debug, PartialEq, Eq, Structural)]
pub struct ProgressiveFlags(pub u32);

/// Lifecycle state of a progressive publication.
#[derive(Clone, Copy, Debug, PartialEq, Eq, Structural)]
pub enum ProgressiveState {
    Prepared,
    Active,
    Complete,
    Aborted,
}

impl ProgressiveState {
    /// Whether no further progress follows this state.
    pub open spec fn spec_is_terminal(self) -> bool {
        self == ProgressiveState::Complete || self == ProgressiveState::Aborted
    }
}

/// One published pair of lifecycle state and committed byte count.
#[derive(Clone, Copy, Debug, PartialEq, Eq, Structural)]
pub struct ProgressiveSnapshot {
    committed_bytes: u32,
    state: ProgressiveState,
}

impl ProgressiveSnapshot {
    pub closed spec fn spec_committed_bytes(self) -> u32 {
        self.committed_bytes
    }

    pub closed spec fn spec_state(self) -> ProgressiveState {
        self.state
    }

    pub fn new(committed_bytes: u32, state: ProgressiveState) -> (r: ProgressiveSnapshot)
        ensures
            r.spec_committed_bytes() == committed_bytes,
            r.spec_state() == state,
    {
        ProgressiveSnapshot { committed_bytes, state }
    }

    pub fn committed_bytes(&self) -> (r: u32)
        ensures
            r == self.spec_committed_bytes(),
    {
        self.committed_bytes
    }

    pub fn state(&self) -> (r: ProgressiveState)
        ensures
            r == self.spec_state(),
    {
        self.state
    }
}

/// A progressive buffer does not satisfy the negotiated ownership protocol.
#[derive(Clone, Copy, Debug, PartialEq, Eq, Structural)]
pub enum ProgressiveBufferError {
    /// Required progressive metadata is absent or malformed.
    InvalidMetadata,
    /// The selected data plane, chunk, or payload range is invalid.
    InvalidLayout,
    /// A lifecycle or committed-prefix transition is invalid.
    InvalidState,
    /// The native library rejected the progressive producer announcement.
    AnnouncementFailed,
}

/// Whether `value` is a multiple of `divisor`; only zero is a multiple of zero.
pub open spec fn multiple_of(value: int, divisor: int) -> bool {
    if divisor == 0 {
        value == 0
    } else {
        value % divisor == 0
    }
}

/// Whether a consumer accepts `current` after the previous observation
/// `previous` of a payload of `payload_size` bytes committed in
/// `commit_granularity` steps.
pub open spec fn observation_valid(
    current: ProgressiveSnapshot,
    previous: Option<ProgressiveSnapshot>,
    payload_size: int,
    commit_granularity: int,
) -> bool {
    let committed = current.spec_committed_bytes() as int;
    let state = current.spec_state();
    &&& committed <= payload_size
    &&& state != ProgressiveState::Prepared
    &&& state == ProgressiveState::Complete ==> committed == payload_size
    &&& (state == ProgressiveState::Active || state == ProgressiveState::Aborted) ==> (committed
        == payload_size || multiple_of(committed, commit_granularity))
    &&& previous matches Some(previous) ==> {
        &&& committed >= previous.spec_committed_bytes()
        &&& previous.spec_state() != ProgressiveState::Prepared
        &&& previous.spec_state().spec_is_terminal() ==> current == previous
    }
}

fn is_multiple_of(value: usize, divisor: usize) -> (r: bool)
    ensures
        r == multiple_of(value as int, divisor as int),
{
    if divisor == 0 {
        value == 0
    } else {
        value % divisor == 0
    }
}

/// What an accepted observation guarantees a consumer: a published prefix
/// never exceeds the payload, a complete publication carries the whole
/// payload, a prepared buffer is never readable, a partial prefix of a
/// running or aborted publication ends on a commit boundary, and after a
/// terminal observation only that same publication is accepted again.
pub proof fn lemma_accepted_observation(
    current: ProgressiveSnapshot,
    previous: Option<ProgressiveSnapshot>,
    payload_size: int,
    commit_granularity: int,
)
    requires
        observation_valid(current, previous, payload_size, commit_granularity),
        commit_granularity > 0,
    ensures
        current.spec_committed_bytes() <= payload_size,
        current.spec_state() == ProgressiveState::Complete ==> current.spec_committed_bytes()
            == payload_size,
        current.spec_state() != ProgressiveState::Prepared,
        current.spec_committed_bytes() < payload_size ==> (current.spec_committed_bytes() as int)
            % commit_granularity == 0,
        previous is Some ==> previous->Some_0.spec_committed_bytes() <= current.spec_committed_bytes(),
        previous is Some && (previous->Some_0.spec_state() == ProgressiveState::Complete
            || previous->Some_0.spec_state() == ProgressiveState::Aborted) ==> current
            == previous->Some_0,
{
}

/// Checks one acquire-observed snapshot against the negotiated payload and
/// the previous observation of the same consumer.
pub fn validate_observation(
    current: ProgressiveSnapshot,
    previous: Option<ProgressiveSnapshot>,
    payload_size: usize,
    commit_granularity: usize,
) -> (r: Result<(), ProgressiveBufferError>)
    ensures
        r is Ok ==> current.spec_committed_bytes() <= payload_size,
        r is Ok && current.spec_state() == ProgressiveState::Complete ==> current.spec_committed_bytes()
            == payload_size,
        r is Ok ==> current.spec_state() != ProgressiveState::Prepared,
        match r {
            Ok(()) => observation_valid(
                current,
                previous,
                payload_size as int,
                commit_granularity as int,
            ),
            Err(error) => error == ProgressiveBufferError::InvalidState && !observation_valid(
                current,
                previous,
                payload_size as int,
                commit_granularity as int,
            ),
        },
{
    let committed = current.committed_bytes() as usize;
    let state = current.state();
    if committed > payload_size || state == ProgressiveState::Prepared || (state
        == ProgressiveState::Complete && committed != payload_size) || ((state
        == ProgressiveState::Active || state == ProgressiveState::Aborted) && committed
        != payload_size && !is_multiple_of(committed, commit_granularity)) {
        return Err(ProgressiveBufferError::InvalidState);
    }
    match previous {
        Some(previous) => {
            let invalid = (committed < previous.committed_bytes() as usize) || match previous.state() {
                ProgressiveState::Prepared => true,
                ProgressiveState::Active => false,
                ProgressiveState::Complete | ProgressiveState::Aborted => current != previous,
            };
            if invalid {
                return Err(ProgressiveBufferError::InvalidState);
            }
        },
        None => {},
    }
    Ok(())
}

/// Where the payload of a progressive buffer lies in its data plane.
#[derive(Clone, Copy, Debug, PartialEq, Eq, Structural)]
pub struct PayloadLayout {
    /// Address of the first payload byte.
    pub address: usize,
    /// Stride of the selected chunk.
    pub stride: i32,
}

/// Whether data plane `data_index` of `planes` holds a mapped payload of
/// `payload_size` bytes at `payload_offset` that its chunk describes exactly.
pub open spec fn payload_layout_valid(
    planes: Seq<DataPlane>,
    data_index: u32,
    payload_offset: u32,
    payload_size: u32,
) -> bool {
    &&& data_index < planes.len()
    &&& payload_offset + payload_size <= u32::MAX
    &&& planes[data_index as int].spec_mapped()
    &&& payload_offset + payload_size <= planes[data_index as int].maxsize
    &&& planes[data_index as int].chunk.offset == payload_offset
    &&& planes[data_index as int].chunk.size == payload_size
    &&& !planes[data_index as int].chunk.flags.spec_unusable()
}

/// A located payload lies inside mapped memory that its chunk describes
/// exactly: the plane exists and is mapped, the payload ends within the
/// mapping, the chunk starts at the payload and spans exactly its size, and
/// the chunk is neither empty nor corrupted.
pub proof fn lemma_payload_inside_plane(
    planes: Seq<DataPlane>,
    data_index: u32,
    payload_offset: u32,
    payload_size: u32,
)
    requires
        payload_layout_valid(planes, data_index, payload_offset, payload_size),
    ensures
        (data_index as int) < planes.len(),
        planes[data_index as int].address != 0,
        payload_offset + payload_size <= planes[data_index as int].maxsize,
        planes[data_index as int].chunk.offset == payload_offset,
        planes[data_index as int].chunk.size == payload_size,
        planes[data_index as int].chunk.flags.0 & (crate::buffer::CHUNK_FLAG_CORRUPTED
            | crate::buffer::CHUNK_FLAG_EMPTY) == 0,
{
}

/// Locates the payload in the selected data plane.
pub fn payload_layout(
    planes: &[DataPlane],
    data_index: u32,
    payload_offset: u32,
    payload_size: u32,
) -> (r: Result<PayloadLayout, ProgressiveBufferError>)
    requires
        forall|i: int|
            0 <= i < planes@.len() ==> (#[trigger] planes@[i]).address + planes@[i].maxsize
                <= usize::MAX,
    ensures
        match r {
            Ok(layout) => payload_layout_valid(planes@, data_index, payload_offset, payload_size)
                && layout.address == planes@[data_index as int].address + payload_offset
                && layout.stride == planes@[data_index as int].chunk.stride,
            Err(error) => error == ProgressiveBufferError::InvalidLayout && !payload_layout_valid(
                planes@,
                data_index,
                payload_offset,
                payload_size,
            ),
        },
{
    let index = data_index as usize;
    if index >= planes.len() {
        return Err(ProgressiveBufferError::InvalidLayout);
    }
    let plane = planes[index];
    let end = match payload_offset.checked_add(payload_size) {
        Some(end) => end,
        None => return Err(ProgressiveBufferError::InvalidLayout),
    };
    if plane.address == 0 || end > plane.maxsize || plane.chunk.offset != payload_offset
        || plane.chunk.size != payload_size || plane.chunk.flags.is_unusable() {
        return Err(ProgressiveBufferError::InvalidLayout);
    }
    Ok(PayloadLayout { address: plane.address + payload_offset as usize, stride: plane.chunk.stride })
}

/// Bytes of one 32-bit floating-point sample of a progressive payload.
pub const PROGRESSIVE_SAMPLE_SIZE: usize = 4;

/// The number of 32-bit floating-point samples that the `len` bytes at
/// `address` hold, when they may be viewed as such samples: on a
/// little-endian target, with a length of whole samples and an address
/// aligned to `align`, the alignment of the sample type.
pub fn progressive_sample_count(address: usize, len: usize, align: usize, little_endian: bool) -> (r:
    Result<usize, ProgressiveBufferError>)
    ensures
        match r {
            Ok(count) => {
                &&& little_endian
                &&& len % PROGRESSIVE_SAMPLE_SIZE == 0
                &&& aligned(address as int, align as int)
                &&& count == len / PROGRESSIVE_SAMPLE_SIZE
            },
            Err(error) => error == ProgressiveBufferError::InvalidLayout && !(little_endian && len
                % PROGRESSIVE_SAMPLE_SIZE == 0 && aligned(address as int, align as int)),
        },
{
    let address_aligned = if align == 0 {
        address == 0
    } else {
        address % align == 0
    };
    if !little_endian || len % PROGRESSIVE_SAMPLE_SIZE != 0 || !address_aligned {
        return Err(ProgressiveBufferError::InvalidLayout);
    }
    Ok(len / PROGRESSIVE_SAMPLE_SIZE)
}

/// Abstract state of a [`ProgressiveOutputBuffer`].
pub ghost struct ProgressiveOutputSpec {
    pub payload_size: nat,
    pub commit_granularity: nat,
    pub stride: i32,
    pub committed: nat,
    pub terminal: Option<ProgressiveState>,
    pub has_header: bool,
}

/// The snapshot that describes the producer's current publication.
pub open spec fn output_snapshot_of(output: ProgressiveOutputSpec) -> (ProgressiveState, nat) {
    match output.terminal {
        Some(state) => (state, output.committed),
        None => (ProgressiveState::Active, output.committed),
    }
}

/// Whether `snapshot` is the publication that `output` stands for.
pub open spec fn publishes(output: ProgressiveOutputSpec, snapshot: ProgressiveSnapshot) -> bool {
    snapshot.spec_state() == output_snapshot_of(output).0
        && snapshot.spec_committed_bytes() == output_snapshot_of(output).1
}

/// The producer side of a progressive buffer.
///
/// The committed prefix is visible downstream. This owner hands out only the
/// unpublished suffix through [`Self::write_until`], and each transition
/// returns the snapshot that must be release-published to consumers.
#[derive(Debug)]
pub struct ProgressiveOutputBuffer {
    payload_size: usize,
    commit_granularity: usize,
    stride: i32,
    committed: usize,
    terminal: Option<ProgressiveState>,
    has_header: bool,
}

impl View for ProgressiveOutputBuffer {
    type V = ProgressiveOutputSpec;

    closed spec fn view(&self) -> ProgressiveOutputSpec {
        ProgressiveOutputSpec {
            payload_size: self.payload_size as nat,
            commit_granularity: self.commit_granularity as nat,
            stride: self.stride,
            committed: self.committed as nat,
            terminal: self.terminal,
            has_header: self.has_header,
        }
    }
}

/// The protocol invariant of a producer.
pub open spec fn output_valid(output: ProgressiveOutputSpec) -> bool {
    &&& 0 < output.commit_granularity <= output.payload_size <= u32::MAX
    &&& output.committed <= output.payload_size
    &&& output.committed == output.payload_size || output.committed % output.commit_granularity
        == 0
    &&& output.terminal matches Some(state) ==> state.spec_is_terminal()
    &&& output.terminal == Some(ProgressiveState::Complete) ==> output.committed
        == output.payload_size
}

/// The producer-owned unpublished range `[start, end)` of a payload.
#[derive(Clone, Copy, Debug, PartialEq, Eq, Structural)]
pub struct ProgressiveWrite {
    start: usize,
    end: usize,
}

impl ProgressiveWrite {
    pub closed spec fn spec_start(self) -> usize {
        self.start
    }

    pub closed spec fn spec_end(self) -> usize {
        self.end
    }

    /// First byte of the range.
    pub fn start(&self) -> (r: usize)
        ensures
            r == self.spec_start(),
    {
        self.start
    }

    /// One past the last byte of the range.
    pub fn end(&self) -> (r: usize)
        ensures
            r == self.spec_end(),
    {
        self.end
    }

    /// Number of bytes in the range.
    pub fn len(&self) -> (r: usize)
        requires
            self.spec_start() <= self.spec_end(),
        ensures
            r == self.spec_end() - self.spec_start(),
    {
        self.end - self.start
    }

    /// Release-publishes the written range as part of the immutable prefix.
    ///
    /// Returns the snapshot to publish.
    pub fn commit(self, output: &mut ProgressiveOutputBuffer) -> (r: ProgressiveSnapshot)
        requires
            old(output)@.terminal is None,
            old(output)@.committed == self.spec_start(),
            self.spec_start() < self.spec_end() <= old(output)@.payload_size,
            self.spec_end() == old(output)@.payload_size || (self.spec_end() as nat) % old(
                output,
            )@.commit_granularity == 0,
        ensures
            final(output)@ == (ProgressiveOutputSpec {
                committed: self.spec_end() as nat,
                ..old(output)@
            }),
            r.spec_state() == ProgressiveState::Active,
            r.spec_committed_bytes() == self.spec_end(),
            publishes(final(output)@, r),
    {
        proof {
            use_type_invariant(&*output);
        }
        output.committed = self.end;
        ProgressiveSnapshot::new(self.end as u32, ProgressiveState::Active)
    }
}

impl ProgressiveOutputBuffer {
    #[verifier::type_invariant]
    pub open spec fn inv(self) -> bool {
        output_valid(self@)
    }

    /// Validates the payload of one mapped output buffer and starts its
    /// producer side with an empty committed prefix.
    ///
    /// The chunk of the selected plane must already describe exactly the
    /// payload range. `metadata_initialized` says whether the buffer carries
    /// progressive metadata that the native library initialized for this
    /// payload; without it the buffer has invalid metadata. The returned
    /// snapshot must be published before the buffer is announced.
    pub fn begin(
        planes: &[DataPlane],
        data_index: u32,
        payload_offset: u32,
        payload_size: u32,
        commit_granularity: u32,
        metadata_initialized: bool,
        has_header: bool,
    ) -> (r: Result<(ProgressiveOutputBuffer, PayloadLayout, ProgressiveSnapshot), ProgressiveBufferError>)
        requires
            forall|i: int|
                0 <= i < planes@.len() ==> (#[trigger] planes@[i]).address + planes@[i].maxsize
                    <= usize::MAX,
        ensures
            match r {
                Ok((output, layout, snapshot)) => {
                    &&& 0 < commit_granularity <= payload_size
                    &&& payload_layout_valid(planes@, data_index, payload_offset, payload_size)
                    &&& metadata_initialized
                    &&& layout.address == planes@[data_index as int].address + payload_offset
                    &&& layout.stride == planes@[data_index as int].chunk.stride
                    &&& output@ == ProgressiveOutputSpec {
                        payload_size: payload_size as nat,
                        commit_granularity: commit_granularity as nat,
                        stride: layout.stride,
                        committed: 0,
                        terminal: None,
                        has_header,
                    }
                    &&& snapshot.spec_committed_bytes() == 0
                    &&& snapshot.spec_state() == ProgressiveState::Active
                },
                Err(error) => if !(0 < commit_granularity <= payload_size && payload_layout_valid(
                    planes@,
                    data_index,
                    payload_offset,
                    payload_size,
                )) {
                    error == ProgressiveBufferError::InvalidLayout
                } else {
                    error == ProgressiveBufferError::InvalidMetadata && !metadata_initialized
                },
            },
    {
        if payload_size == 0 || commit_granularity == 0 || commit_granularity > payload_size {
            return Err(ProgressiveBufferError::InvalidLayout);
        }
        let layout = payload_layout(planes, data_index, payload_offset, payload_size)?;
        if !metadata_initialized {
            return Err(ProgressiveBufferError::InvalidMetadata);
        }
        let output = ProgressiveOutputBuffer {
            payload_size: payload_size as usize,
            commit_granularity: commit_granularity as usize,
            stride: layout.stride,
            committed: 0,
            terminal: None,
            has_header,
        };
        Ok((output, layout, ProgressiveSnapshot::new(0, ProgressiveState::Active)))
    }

    /// Flags and snapshot to publish when the native library rejects the
    /// announcement of a prepared output.
    pub fn announcement_failed() -> (r: (ProgressiveFlags, ProgressiveSnapshot))
        ensures
            r.0 == ProgressiveFlags(PROGRESSIVE_FLAG_INCOMPLETE | PROGRESSIVE_FLAG_PROTOCOL_ERROR),
            r.1.spec_committed_bytes() == 0,
            r.1.spec_state() == ProgressiveState::Aborted,
    {
        (
            ProgressiveFlags(PROGRESSIVE_FLAG_INCOMPLETE | PROGRESSIVE_FLAG_PROTOCOL_ERROR),
            ProgressiveSnapshot::new(0, ProgressiveState::Aborted),
        )
    }

    /// Returns the number of bytes already published as immutable.
    pub fn committed_bytes(&self) -> (r: usize)
        ensures
            r == self@.committed,
    {
        self.committed
    }

    /// Returns the negotiated progressive payload extent in bytes.
    pub fn payload_size(&self) -> (r: usize)
        ensures
            r == self@.payload_size,
    {
        self.payload_size
    }

    /// Returns the negotiated progressive commit granularity in bytes.
    pub fn commit_granularity(&self) -> (r: usize)
        ensures
            r == self@.commit_granularity,
    {
        self.commit_granularity
    }

    /// Returns the selected SPA chunk stride.
    pub fn stride(&self) -> (r: i32)
        ensures
            r == self@.stride,
    {
        self.stride
    }

    /// Whether a terminal state was published.
    pub fn is_terminal(&self) -> (r: bool)
        ensures
            r == self@.terminal is Some,
    {
        self.terminal.is_some()
    }

    /// Checks that a scientific-sample header may still be copied before
    /// terminal publication. Header contents are terminal-only; the following
    /// terminal snapshot publishes the copy.
    pub fn set_terminal_header(&self) -> (r: Result<(), ProgressiveBufferError>)
        ensures
            self@.terminal is Some ==> r == Err::<(), ProgressiveBufferError>(
                ProgressiveBufferError::InvalidState,
            ),
            self@.terminal is None && !self@.has_header ==> r == Err::<(), ProgressiveBufferError>(
                ProgressiveBufferError::InvalidMetadata,
            ),
            self@.terminal is None && self@.has_header ==> r is Ok,
    {
        if self.terminal.is_some() {
            return Err(ProgressiveBufferError::InvalidState);
        }
        if !self.has_header {
            return Err(ProgressiveBufferError::InvalidMetadata);
        }
        Ok(())
    }

    /// Borrows the unpublished range from the current prefix to `end`.
    ///
    /// A non-final boundary must be aligned to the negotiated commit
    /// granularity. The range is not visible to consumers until it is
    /// committed.
    pub fn write_until(&self, end: usize) -> (r: Result<ProgressiveWrite, ProgressiveBufferError>)
        ensures
            match r {
                Ok(write) => {
                    &&& self@.terminal is None
                    &&& self@.committed < end <= self@.payload_size
                    &&& (end == self@.payload_size || (end as nat) % self@.commit_granularity == 0)
                    &&& write.spec_start() == self@.committed
                    &&& write.spec_end() == end
                },
                Err(error) => error == ProgressiveBufferError::InvalidState && !(self@.terminal
                    is None && self@.committed < end <= self@.payload_size && (end
                    == self@.payload_size || (end as nat) % self@.commit_granularity == 0)),
            },
    {
        proof {
            use_type_invariant(self);
        }
        if self.terminal.is_some() || end <= self.committed || end > self.payload_size || (end
            != self.payload_size && end % self.commit_granularity != 0) {
            return Err(ProgressiveBufferError::InvalidState);
        }
        Ok(ProgressiveWrite { start: self.committed, end })
    }

    /// Publishes a successful terminal state after the whole payload commits.
    pub fn complete(&mut self) -> (r: Result<ProgressiveSnapshot, ProgressiveBufferError>)
        ensures
            match r {
                Ok(snapshot) => {
                    &&& old(self)@.terminal is None
                    &&& old(self)@.committed == old(self)@.payload_size
                    &&& final(self)@ == (ProgressiveOutputSpec {
                        terminal: Some(ProgressiveState::Complete),
                        ..old(self)@
                    })
                    &&& snapshot.spec_state() == ProgressiveState::Complete
                    &&& snapshot.spec_committed_bytes() == old(self)@.payload_size
                    &&& publishes(final(self)@, snapshot)
                },
                Err(error) => {
                    &&& error == ProgressiveBufferError::InvalidState
                    &&& (old(self)@.terminal is Some || old(self)@.committed != old(
                        self,
                    )@.payload_size)
                    &&& final(self)@ == old(self)@
                },
            },
    {
        proof {
            use_type_invariant(&*self);
        }
        if self.terminal.is_some() || self.committed != self.payload_size {
            return Err(ProgressiveBufferError::InvalidState);
        }
        self.terminal = Some(ProgressiveState::Complete);
        Ok(ProgressiveSnapshot::new(self.payload_size as u32, ProgressiveState::Complete))
    }

    /// Publishes a terminal failure while preserving the valid prefix.
    ///
    /// Returns the terminal flags to store, which add
    /// [`PROGRESSIVE_FLAG_INCOMPLETE`] when the payload is not fully
    /// committed, and the snapshot to publish after them.
    pub fn abort(&mut self, flags: ProgressiveFlags) -> (r: Result<
        (ProgressiveFlags, ProgressiveSnapshot),
        ProgressiveBufferError,
    >)
        ensures
            match r {
                Ok((terminal_flags, snapshot)) => {
                    &&& old(self)@.terminal is None
                    &&& final(self)@ == (ProgressiveOutputSpec {
                        terminal: Some(ProgressiveState::Aborted),
                        ..old(self)@
                    })
                    &&& terminal_flags == if old(self)@.committed < old(self)@.payload_size {
                        ProgressiveFlags(flags.0 | PROGRESSIVE_FLAG_INCOMPLETE)
                    } else {
                        flags
                    }
                    &&& snapshot.spec_state() == ProgressiveState::Aborted
                    &&& snapshot.spec_committed_bytes() == old(self)@.committed
                    &&& publishes(final(self)@, snapshot)
                },
                Err(error) => {
                    &&& error == ProgressiveBufferError::InvalidState
                    &&& old(self)@.terminal is Some
                    &&& final(self)@ == old(self)@
                },
            },
    {
        proof {
            use_type_invariant(&*self);
        }
        if self.terminal.is_some() {
            return Err(ProgressiveBufferError::InvalidState);
        }
        let terminal_flags = if self.committed < self.payload_size {
            ProgressiveFlags(flags.0 | PROGRESSIVE_FLAG_INCOMPLETE)
        } else {
            flags
        };
        self.terminal = Some(ProgressiveState::Aborted);
        Ok((terminal_flags, ProgressiveSnapshot::new(self.committed as u32, ProgressiveState::Aborted)))
    }

    /// Publishes cancellation while preserving the last committed prefix.
    pub fn cancel(&mut self) -> (r: Result<
        (ProgressiveFlags, ProgressiveSnapshot),
        ProgressiveBufferError,
    >)
        ensures
            match r {
                Ok((terminal_flags, snapshot)) => {
                    &&& old(self)@.terminal is None
                    &&& final(self)@ == (ProgressiveOutputSpec {
                        terminal: Some(ProgressiveState::Aborted),
                        ..old(self)@
                    })
                    &&& terminal_flags == if old(self)@.committed < old(self)@.payload_size {
                        ProgressiveFlags(PROGRESSIVE_FLAG_CANCELLED | PROGRESSIVE_FLAG_INCOMPLETE)
                    } else {
                        ProgressiveFlags(PROGRESSIVE_FLAG_CANCELLED)
                    }
                    &&& snapshot.spec_state() == ProgressiveState::Aborted
                    &&& snapshot.spec_committed_bytes() == old(self)@.committed
                },
                Err(error) => {
                    &&& error == ProgressiveBufferError::InvalidState
                    &&& old(self)@.terminal is Some
                    &&& final(self)@ == old(self)@
                },
            },
    {
        self.abort(ProgressiveFlags(PROGRESSIVE_FLAG_CANCELLED))
    }

    /// What releasing the producer publishes, as dropping it does: an
    /// unterminated buffer is cancelled with its committed prefix kept, and
    /// a terminated one publishes nothing more.
    pub fn release(&mut self) -> (r: Option<(ProgressiveFlags, ProgressiveSnapshot)>)
        ensures
            old(self)@.terminal is Some ==> r is None && final(self)@ == old(self)@,
            old(self)@.terminal is None ==> {
                &&& r matches Some((terminal_flags, snapshot))
                &&& terminal_flags == if old(self)@.committed < old(self)@.payload_size {
                    ProgressiveFlags(PROGRESSIVE_FLAG_CANCELLED | PROGRESSIVE_FLAG_INCOMPLETE)
                } else {
                    ProgressiveFlags(PROGRESSIVE_FLAG_CANCELLED)
                }
                &&& snapshot.spec_state() == ProgressiveState::Aborted
                &&& snapshot.spec_committed_bytes() == old(self)@.committed
                &&& final(self)@ == (ProgressiveOutputSpec {
                    terminal: Some(ProgressiveState::Aborted),
                    ..old(self)@
                })
            },
    {
        if self.terminal.is_some() {
            return None;
        }
        match self.cancel() {
            Ok(published) => Some(published),
            Err(_) => None,
        }
    }
}

/// Abstract state of a [`ProgressiveInput`].
pub ghost struct ProgressiveInputSpec {
    pub payload_size: nat,
    pub commit_granularity: nat,
    pub stride: i32,
    pub payload_address: usize,
    pub has_header: bool,
    pub previous: Option<ProgressiveSnapshot>,
}

/// A consumer lease that exposes only acquire-observed committed prefixes.
#[derive(Debug)]
pub struct ProgressiveInput {
    payload_size: usize,
    commit_granularity: usize,
    stride: i32,
    payload_address: usize,
    has_header: bool,
    previous: Option<ProgressiveSnapshot>,
}

impl View for ProgressiveInput {
    type V = ProgressiveInputSpec;

    closed spec fn view(&self) -> ProgressiveInputSpec {
        ProgressiveInputSpec {
            payload_size: self.payload_size as nat,
            commit_granularity: self.commit_granularity as nat,
            stride: self.stride,
            payload_address: self.payload_address,
            has_header: self.has_header,
            previous: self.previous,
        }
    }
}

/// One coherent progressive snapshot and its acquire-observed valid prefix.
#[derive(Clone, Copy, Debug, PartialEq, Eq, Structural)]
pub struct ProgressiveRead {
    address: usize,
    length: usize,
    snapshot: ProgressiveSnapshot,
    terminal_flags: Option<ProgressiveFlags>,
    terminal_header: bool,
}

impl ProgressiveRead {
    pub closed spec fn spec_address(self) -> usize {
        self.address
    }

    pub closed spec fn spec_len(self) -> usize {
        self.length
    }

    pub closed spec fn spec_snapshot(self) -> ProgressiveSnapshot {
        self.snapshot
    }

    pub closed spec fn spec_terminal_flags(self) -> Option<ProgressiveFlags> {
        self.terminal_flags
    }

    pub closed spec fn spec_terminal_header(self) -> bool {
        self.terminal_header
    }

    /// Address of the first readable byte.
    pub fn address(&self) -> (r: usize)
        ensures
            r == self.spec_address(),
    {
        self.address
    }

    /// Number of readable bytes: exactly the committed prefix.
    pub fn len(&self) -> (r: usize)
        ensures
            r == self.spec_len(),
    {
        self.length
    }

    /// Returns the lifecycle state and committed byte count for this view.
    pub fn snapshot(&self) -> (r: ProgressiveSnapshot)
        ensures
            r == self.spec_snapshot(),
    {
        self.snapshot
    }

    /// Returns terminal flags, or `None` for a nonterminal view.
    pub fn terminal_flags(&self) -> (r: Option<ProgressiveFlags>)
        ensures
            r == self.spec_terminal_flags(),
    {
        self.terminal_flags
    }

    /// Whether the terminal sample header may be read with this view.
    ///
    /// Active observations never expose it; header fields are not
    /// authoritative until the producer publishes a terminal state.
    pub fn terminal_header(&self) -> (r: bool)
        ensures
            r == self.spec_terminal_header(),
    {
        self.terminal_header
    }
}

impl ProgressiveInput {
    /// Validates one dequeued mapped input whose progressive metadata
    /// describes `payload_size` bytes at `payload_offset` of plane
    /// `data_index`, committed in `commit_granularity` steps.
    /// `metadata_valid` says whether the buffer carries progressive metadata
    /// that the native validator accepted; without it the input has invalid
    /// metadata.
    pub fn new(
        planes: &[DataPlane],
        data_index: u32,
        payload_offset: u32,
        payload_size: u32,
        commit_granularity: u32,
        metadata_valid: bool,
        has_header: bool,
    ) -> (r: Result<ProgressiveInput, ProgressiveBufferError>)
        requires
            forall|i: int|
                0 <= i < planes@.len() ==> (#[trigger] planes@[i]).address + planes@[i].maxsize
                    <= usize::MAX,
        ensures
            match r {
                Ok(input) => {
                    &&& metadata_valid
                    &&& payload_layout_valid(planes@, data_index, payload_offset, payload_size)
                    &&& input@ == ProgressiveInputSpec {
                        payload_size: payload_size as nat,
                        commit_granularity: commit_granularity as nat,
                        stride: planes@[data_index as int].chunk.stride,
                        payload_address: (planes@[data_index as int].address
                            + payload_offset) as usize,
                        has_header,
                        previous: None,
                    }
                },
                Err(error) => if !metadata_valid {
                    error == ProgressiveBufferError::InvalidMetadata
                } else {
                    error == ProgressiveBufferError::InvalidLayout && !payload_layout_valid(
                        planes@,
                        data_index,
                        payload_offset,
                        payload_size,
                    )
                },
            },
    {
        if !metadata_valid {
            return Err(ProgressiveBufferError::InvalidMetadata);
        }
        let layout = payload_layout(planes, data_index, payload_offset, payload_size)?;
        Ok(
            ProgressiveInput {
                payload_size: payload_size as usize,
                commit_granularity: commit_granularity as usize,
                stride: layout.stride,
                payload_address: layout.address,
                has_header,
                previous: None,
            },
        )
    }

    /// Returns the negotiated progressive payload extent in bytes.
    pub fn payload_size(&self) -> (r: usize)
        ensures
            r == self@.payload_size,
    {
        self.payload_size
    }

    /// Returns the negotiated progressive commit granularity in bytes.
    pub fn commit_granularity(&self) -> (r: usize)
        ensures
            r == self@.commit_granularity,
    {
        self.commit_granularity
    }

    /// Returns the selected SPA chunk stride.
    pub fn stride(&self) -> (r: i32)
        ensures
            r == self@.stride,
    {
        self.stride
    }

    /// Accepts one acquire-observed snapshot and grants exactly its
    /// committed prefix.
    pub fn acquire(&mut self, observed: ProgressiveSnapshot, terminal_flags: Option<ProgressiveFlags>) -> (r:
        Result<ProgressiveRead, ProgressiveBufferError>)
        ensures
            match r {
                Ok(read) => {
                    &&& observation_valid(
                        observed,
                        old(self)@.previous,
                        old(self)@.payload_size as int,
                        old(self)@.commit_granularity as int,
                    )
                    &&& final(self)@ == (ProgressiveInputSpec {
                        previous: Some(observed),
                        ..old(self)@
                    })
                    &&& read.spec_address() == old(self)@.payload_address
                    &&& read.spec_len() == observed.spec_committed_bytes()
                    &&& read.spec_snapshot() == observed
                    &&& read.spec_terminal_flags() == terminal_flags
                    &&& read.spec_terminal_header() == (old(self)@.has_header
                        && observed.spec_state().spec_is_terminal())
                },
                Err(error) => {
                    &&& error == ProgressiveBufferError::InvalidState
                    &&& !observation_valid(
                        observed,
                        old(self)@.previous,
                        old(self)@.payload_size as int,
                        old(self)@.commit_granularity as int,
                    )
                    &&& final(self)@ == old(self)@
                },
            },
    {
        validate_observation(observed, self.previous, self.payload_size, self.commit_granularity)?;
        self.previous = Some(observed);
        let state = observed.state();
        let terminal = state == ProgressiveState::Complete || state == ProgressiveState::Aborted;
        Ok(
            ProgressiveRead {
                address: self.payload_address,
                length: observed.committed_bytes() as usize,
                snapshot: observed,
                terminal_flags,
                terminal_header: self.has_header && terminal,
            },
        )
    }
}

/// Every publication of a producer is accepted by a consumer that observed
/// the previous one: the committed prefix only grows, it stays aligned to
/// the commit granularity until the payload is complete, and the first
/// snapshot of a fresh producer is accepted without a previous observation.
pub proof fn lemma_producer_step_observable(
    before: ProgressiveOutputSpec,
    after: ProgressiveOutputSpec,
    previous: ProgressiveSnapshot,
    current: ProgressiveSnapshot,
)
    requires
        output_valid(before),
        output_valid(after),
        before.terminal is None,
        after.payload_size == before.payload_size,
        after.commit_granularity == before.commit_granularity,
        after.committed >= before.committed,
        publishes(before, previous),
        publishes(after, current),
    ensures
        observation_valid(
            current,
            Some(previous),
            after.payload_size as int,
            after.commit_granularity as int,
        ),
        observation_valid(
            previous,
            None,
            before.payload_size as int,
            before.commit_granularity as int,
        ),
{
}

/// Once a consumer has observed a terminal snapshot, it accepts only that
/// same snapshot again, and observing it again is always accepted.
pub proof fn lemma_terminal_observation_is_final(
    terminal: ProgressiveSnapshot,
    current: ProgressiveSnapshot,
    payload_size: int,
    commit_granularity: int,
)
    requires
        terminal.spec_state().spec_is_terminal(),
        observation_valid(terminal, None, payload_size, commit_granularity),
    ensures
        observation_valid(current, Some(terminal), payload_size, commit_granularity) <==> current
            == terminal,
{
}

/// Accepted observations never shrink the committed prefix.
pub proof fn lemma_observations_monotonic(
    previous: ProgressiveSnapshot,
    current: ProgressiveSnapshot,
    payload_size: int,
    commit_granularity: int,
)
    requires
        observation_valid(current, Some(previous), payload_size, commit_granularity),
    ensures
        previous.spec_committed_bytes() <= current.spec_committed_bytes() <= payload_size,
        previous.spec_state() != ProgressiveState::Prepared,
        current.spec_state() != ProgressiveState::Prepared,
{
}

} // verus!

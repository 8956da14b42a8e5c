//! Plain descriptions of mapped SPA buffer data planes.

use vstd::prelude::*;

verus! {

/// The chunk data is corrupted.
pub const CHUNK_FLAG_CORRUPTED: i32 = 1;

/// The chunk holds no valid data.
pub const CHUNK_FLAG_EMPTY: i32 = 2;

/// Flags of a data chunk.
#[derive(Clone, Copy, Debug, PartialEq, Eq, Structural)]
pub struct ChunkFlags(pub i32);

impl ChunkFlags {
    /// The empty flag set.
    pub fn empty() -> (r: ChunkFlags)
        ensures
            r == ChunkFlags(0),
    {
        ChunkFlags(0)
    }

    /// Whether the chunk is marked empty or corrupted.
    pub open spec fn spec_unusable(self) -> bool {
        self.0 & (CHUNK_FLAG_CORRUPTED | CHUNK_FLAG_EMPTY) != 0
    }

    /// Whether the chunk is marked empty or corrupted.
    pub fn is_unusable(self) -> (r: bool)
        ensures
            r == self.spec_unusable(),
    {
        self.0 & (CHUNK_FLAG_CORRUPTED | CHUNK_FLAG_EMPTY) != 0
    }
}

/// The valid region of a data plane, as its producer describes it.
#[derive(Clone, Copy, Debug, PartialEq, Eq, Structural)]
pub struct Chunk {
    pub offset: u32,
    pub size: u32,
    pub stride: i32,
    pub flags: ChunkFlags,
}

/// One data plane of a dequeued buffer.
#[derive(Clone, Copy, Debug, PartialEq, Eq, Structural)]
pub struct DataPlane {
    /// Address of the mapped memory, or zero when the plane is not mapped.
    pub address: usize,
    /// Size of the mapped memory in bytes.
    pub maxsize: u32,
    pub chunk: Chunk,
}

impl DataPlane {
    /// Whether the plane's memory is mapped into this process.
    pub open spec fn spec_mapped(self) -> bool {
        self.address != 0
    }
}

/// Producer-local accounting for bounded latest-buffer acquisition.
#[derive(Clone, Copy, Debug, Default, PartialEq, Eq)]
pub struct BufferLatestStats {
    /// Output acquisition duty cycles.
    pub dequeue_attempts: u64,
    /// Completed consumer leases examined.
    pub completions: u64,
    /// Reusable pool slots examined.
    pub buffer_probes: u64,
    /// Attempts that found no safely reusable allocation.
    pub pool_exhaustions: u64,
    /// Unclaimed submissions reclaimed after a full scan.
    pub submission_reclaims: u64,
    /// Subscriber submissions withdrawn while reclaiming a pool buffer.
    pub submission_withdrawals: u64,
    /// Output buffers offered to the active fan-out set.
    pub publications: u64,
    /// Active subscriber channels visited by publication.
    pub subscriber_visits: u64,
    /// Subscriber-local leases created by publication.
    pub subscriber_deliveries: u64,
    /// Subscriber-local unclaimed submissions replaced by a newer publication.
    pub submission_overflows: u64,
    /// Retired subscriber slots acknowledged by the producer.
    pub subscriber_retirements: u64,
    /// Outstanding subscriber leases recovered during retirement.
    pub retired_leases: u64,
    /// Publications that raced with removal and reached no active subscriber.
    pub zero_recipient_publications: u64,
    /// Largest number of pool slots examined by one scan.
    pub max_buffer_probes: u32,
    /// Largest aggregate completion drain in one acquisition attempt.
    pub max_completions: u32,
    /// Largest number of submissions withdrawn in one reclaim attempt.
    pub max_submission_withdrawals: u32,
    /// Largest active fan-out visited by one publication.
    pub max_subscriber_visits: u32,
}

} // verus!

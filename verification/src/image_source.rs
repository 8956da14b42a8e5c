//! Fixed-pool image publication: the configuration handed to the native
//! image source and the decisions taken on its results.

use vstd::prelude::*;

verus! {

/// Linux errno for a protocol error.
pub const EPROTO: i32 = 71;

/// Version of the native configuration and progressive records.
pub const IMAGE_SOURCE_RECORD_VERSION: u32 = 0;

/// Every image-source flag.
pub const IMAGE_SOURCE_FLAG_ALL: u32 = 7;

/// Publications must carry a buffer header.
pub const IMAGE_SOURCE_FLAG_REQUIRE_HEADER: u32 = 1;

/// Publications must carry acquisition metadata.
pub const IMAGE_SOURCE_FLAG_REQUIRE_ACQUISITION: u32 = 2;

/// Progressive publication is allowed.
pub const IMAGE_SOURCE_FLAG_ALLOW_PROGRESSIVE: u32 = 4;

/// Metadata and publication capabilities required by an image source.
#[derive(Clone, Copy, Debug, PartialEq, Eq, Structural)]
pub struct ImageSourceFlags(pub u32);

impl ImageSourceFlags {
    /// The empty flag set.
    pub fn empty() -> (r: ImageSourceFlags)
        ensures
            r == ImageSourceFlags(0),
    {
        ImageSourceFlags(0)
    }

    /// The bits of the flag set.
    pub fn bits(self) -> (r: u32)
        ensures
            r == self.0,
    {
        self.0
    }

    /// Whether every flag of `other` is set.
    pub fn contains(self, other: ImageSourceFlags) -> (r: bool)
        ensures
            r == (self.0 & other.0 == other.0),
    {
        self.0 & other.0 == other.0
    }

    /// The union of both flag sets.
    pub fn union(self, other: ImageSourceFlags) -> (r: ImageSourceFlags)
        ensures
            r == ImageSourceFlags(self.0 | other.0),
    {
        ImageSourceFlags(self.0 | other.0)
    }
}

/// Fixed-pool bounds and metadata requirements for an image source.
#[derive(Clone, Copy, Debug, PartialEq, Eq, Structural)]
pub struct ImageSourceConfig {
    pub min_buffers: u32,
    pub max_buffers: u32,
    pub flags: ImageSourceFlags,
}

/// The native configuration record of an image source.
#[derive(Clone, Copy, Debug, PartialEq, Eq, Structural)]
pub struct ImageSourceNativeConfig {
    pub version: u32,
    pub min_buffers: u32,
    pub max_buffers: u32,
    pub flags: u32,
}

impl ImageSourceConfig {
    /// The native record of this configuration.
    pub fn as_raw(self) -> (r: ImageSourceNativeConfig)
        ensures
            r == (ImageSourceNativeConfig {
                version: IMAGE_SOURCE_RECORD_VERSION,
                min_buffers: self.min_buffers,
                max_buffers: self.max_buffers,
                flags: self.flags.0,
            }),
    {
        ImageSourceNativeConfig {
            version: IMAGE_SOURCE_RECORD_VERSION,
            min_buffers: self.min_buffers,
            max_buffers: self.max_buffers,
            flags: self.flags.bits(),
        }
    }
}

/// Initial publication state for a progressive image.
#[derive(Clone, Copy, Debug, PartialEq, Eq, Structural)]
pub struct ImageProgressive {
    pub payload_size: u32,
    pub commit_granularity: u32,
    pub committed: u32,
}

/// The native record of a progressive image's initial state.
#[derive(Clone, Copy, Debug, PartialEq, Eq, Structural)]
pub struct ImageProgressiveNative {
    pub version: u32,
    pub payload_size: u32,
    pub commit_granularity: u32,
    pub committed: u32,
}

impl ImageProgressive {
    /// The native record of this initial state.
    pub fn as_raw(self) -> (r: ImageProgressiveNative)
        ensures
            r == (ImageProgressiveNative {
                version: IMAGE_SOURCE_RECORD_VERSION,
                payload_size: self.payload_size,
                commit_granularity: self.commit_granularity,
                committed: self.committed,
            }),
    {
        ImageProgressiveNative {
            version: IMAGE_SOURCE_RECORD_VERSION,
            payload_size: self.payload_size,
            commit_granularity: self.commit_granularity,
            committed: self.committed,
        }
    }
}

/// Native image-source slot state.
#[derive(Clone, Copy, Debug, PartialEq, Eq, Structural)]
pub enum ImageBufferState {
    Unused,
    Available,
    Producer,
    Progressive,
    Published,
}

impl ImageBufferState {
    /// The state with native code `raw`, or `None` for an unknown code.
    pub fn from_raw(raw: u32) -> (r: Option<ImageBufferState>)
        ensures
            r == (if raw == 0 {
                Some(ImageBufferState::Unused)
            } else if raw == 1 {
                Some(ImageBufferState::Available)
            } else if raw == 2 {
                Some(ImageBufferState::Producer)
            } else if raw == 3 {
                Some(ImageBufferState::Progressive)
            } else if raw == 4 {
                Some(ImageBufferState::Published)
            } else {
                None
            }),
    {
        match raw {
            0 => Some(ImageBufferState::Unused),
            1 => Some(ImageBufferState::Available),
            2 => Some(ImageBufferState::Producer),
            3 => Some(ImageBufferState::Progressive),
            4 => Some(ImageBufferState::Published),
            _ => None,
        }
    }
}

/// Bounded single-writer counters from the native image source.
#[derive(Clone, Copy, Debug, PartialEq, Eq, Structural)]
pub struct ImageSourceStats {
    pub prepare_calls: u64,
    pub acquire_calls: u64,
    pub available_acquisitions: u64,
    pub reusable_acquisitions: u64,
    pub pool_exhaustions: u64,
    pub forced_reclaims: u64,
    pub producer_returns: u64,
    pub complete_publications: u64,
    pub progressive_started: u64,
    pub progressive_updates: u64,
    pub progressive_completed: u64,
    pub progressive_aborted: u64,
    pub invalid_transitions: u64,
    pub metadata_errors: u64,
    pub teardown_returns: u64,
    pub pool_size: u32,
    pub max_available_probes: u32,
}

/// A native result: `Ok` for zero or more, else the errno it negates.
pub fn result(value: i32) -> (r: Result<(), i32>)
    requires
        value > i32::MIN,
    ensures
        value >= 0 ==> r == Ok::<(), i32>(()),
        value < 0 ==> r == Err::<(), i32>(-value as i32),
{
    if value < 0 {
        Err(-value)
    } else {
        Ok(())
    }
}

/// The pool size that preparing a source reports, or the errno of a failed
/// preparation; a preparation that claims no buffer is a protocol error.
pub fn prepare_result(value: i32) -> (r: Result<u32, i32>)
    requires
        value > i32::MIN,
    ensures
        value > 0 ==> r == Ok::<u32, i32>(value as u32),
        value == 0 ==> r == Err::<u32, i32>(EPROTO),
        value < 0 ==> r == Err::<u32, i32>(-value as i32),
{
    if value <= 0 {
        return Err(
            if value < 0 {
                -value
            } else {
                EPROTO
            },
        );
    }
    Ok(value as u32)
}

/// Whether an acquisition attempt returned a slot (`Ok(true)`) or found
/// none (`Ok(false)`), or its errno: a reported slot that is missing, and
/// any result other than zero, one or an error, are protocol errors.
pub fn acquire_result(value: i32, buffer_present: bool) -> (r: Result<bool, i32>)
    requires
        value > i32::MIN,
    ensures
        value == 0 ==> r == Ok::<bool, i32>(false),
        value == 1 && buffer_present ==> r == Ok::<bool, i32>(true),
        value == 1 && !buffer_present ==> r == Err::<bool, i32>(EPROTO),
        value < 0 ==> r == Err::<bool, i32>(-value as i32),
        value > 1 ==> r == Err::<bool, i32>(EPROTO),
{
    if value == 0 {
        Ok(false)
    } else if value == 1 {
        if buffer_present {
            Ok(true)
        } else {
            Err(EPROTO)
        }
    } else if value < 0 {
        Err(-value)
    } else {
        Err(EPROTO)
    }
}

/// Whether a progressive update was visible to a consumer, or its errno.
pub fn update_result(value: i32) -> (r: Result<bool, i32>)
    requires
        value > i32::MIN,
    ensures
        value < 0 ==> r == Err::<bool, i32>(-value as i32),
        value >= 0 ==> r == Ok::<bool, i32>(value == 1),
{
    if value < 0 {
        return Err(-value);
    }
    Ok(value == 1)
}

} // verus!

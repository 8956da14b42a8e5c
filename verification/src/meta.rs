//! Identity and time qualification of physical acquisitions carried as
//! buffer metadata.

use vstd::prelude::*;

verus! {

/// A buffer metadata kind, identified by its SPA metadata type.
pub trait Metadata {
    const META_TYPE: u32;
}

/// Metadata type of the SPA buffer header.
pub const META_TYPE_HEADER: u32 = 1;

/// The data is not continuous with the previous buffer.
pub const META_HEADER_FLAG_DISCONT: u32 = 1;

/// The data might be corrupted.
pub const META_HEADER_FLAG_CORRUPTED: u32 = 2;

/// The data contains a media-specific marker.
pub const META_HEADER_FLAG_MARKER: u32 = 4;

/// The data contains a codec-specific header.
pub const META_HEADER_FLAG_HEADER: u32 = 8;

/// The data contains media-neutral data.
pub const META_HEADER_FLAG_GAP: u32 = 16;

/// The data cannot be decoded independently.
pub const META_HEADER_FLAG_DELTA_UNIT: u32 = 32;

/// Flags of a buffer header.
#[derive(Clone, Copy, Debug, PartialEq, Eq, Structural)]
pub struct MetaHeaderFlags(pub u32);

/// The fields of a native buffer header record.
#[derive(Clone, Copy, Debug, PartialEq, Eq, Structural)]
pub struct MetaHeaderRaw {
    pub flags: u32,
    /// Offset in the current cycle.
    pub offset: u32,
    /// Presentation timestamp in nanoseconds.
    pub pts: i64,
    /// Decoding timestamp as a difference with `pts`.
    pub dts_offset: i64,
    /// Sequence number, incremented with a media-specific frequency.
    pub seq: u64,
}

/// Essential buffer header metadata such as flags and timestamps.
#[derive(Clone, Debug)]
pub struct MetaHeader(MetaHeaderRaw);

impl View for MetaHeader {
    type V = MetaHeaderRaw;

    closed spec fn view(&self) -> MetaHeaderRaw {
        self.0
    }
}

impl MetaHeader {
    /// The header holding the fields of `raw`.
    pub fn from_raw(raw: MetaHeaderRaw) -> (r: MetaHeader)
        ensures
            r@ == raw,
    {
        MetaHeader(raw)
    }

    /// The fields of the header.
    pub fn as_raw(&self) -> (r: &MetaHeaderRaw)
        ensures
            *r == self@,
    {
        &self.0
    }

    /// The header flags, unknown bits included.
    pub fn flags(&self) -> (r: MetaHeaderFlags)
        ensures
            r == MetaHeaderFlags(self@.flags),
    {
        MetaHeaderFlags(self.0.flags)
    }

    /// Sets the header flags.
    pub fn set_flags(&mut self, flags: MetaHeaderFlags)
        ensures
            final(self)@ == (MetaHeaderRaw { flags: flags.0, ..old(self)@ }),
    {
        self.0.flags = flags.0;
    }

    /// Offset in the current cycle.
    pub fn offset(&self) -> (r: u32)
        ensures
            r == self@.offset,
    {
        self.0.offset
    }

    /// Sets the offset in the current cycle.
    pub fn set_offset(&mut self, offset: u32)
        ensures
            final(self)@ == (MetaHeaderRaw { offset, ..old(self)@ }),
    {
        self.0.offset = offset;
    }

    /// Presentation timestamp in nanoseconds.
    pub fn pts(&self) -> (r: i64)
        ensures
            r == self@.pts,
    {
        self.0.pts
    }

    /// Sets the presentation timestamp in nanoseconds.
    pub fn set_pts(&mut self, pts: i64)
        ensures
            final(self)@ == (MetaHeaderRaw { pts, ..old(self)@ }),
    {
        self.0.pts = pts;
    }

    /// Decoding timestamp as a difference with the presentation timestamp.
    pub fn dts_offset(&self) -> (r: i64)
        ensures
            r == self@.dts_offset,
    {
        self.0.dts_offset
    }

    /// Sets the decoding timestamp difference from the presentation timestamp.
    pub fn set_dts_offset(&mut self, dts_offset: i64)
        ensures
            final(self)@ == (MetaHeaderRaw { dts_offset, ..old(self)@ }),
    {
        self.0.dts_offset = dts_offset;
    }

    /// Sequence number, incremented with a media-specific frequency.
    pub fn seq(&self) -> (r: u64)
        ensures
            r == self@.seq,
    {
        self.0.seq
    }

    /// Sets the media-specific sequence number.
    pub fn set_seq(&mut self, seq: u64)
        ensures
            final(self)@ == (MetaHeaderRaw { seq, ..old(self)@ }),
    {
        self.0.seq = seq;
    }

    /// Copies all header fields from another buffer header.
    pub fn copy_from(&mut self, other: &MetaHeader)
        ensures
            final(self)@ == other@,
    {
        self.0 = other.0;
    }
}

impl Metadata for MetaHeader {
    const META_TYPE: u32 = META_TYPE_HEADER;
}

/// Metadata type of PipeWireAO progressive publication metadata.
pub const META_TYPE_PROGRESSIVE: u32 = 0x0001_0001;

/// Size in bytes of the native progressive metadata record.
pub const META_SIZE_PROGRESSIVE: usize = 32;

/// Metadata type of PipeWireAO acquisition metadata.
pub const META_TYPE_ACQUISITION: u32 = 0x0001_0002;

/// Size in bytes of the native acquisition metadata record.
pub const META_SIZE_ACQUISITION: usize = 96;

/// Metadata feature bit requesting Version 1 acquisition metadata.
pub const META_FEATURE_ACQUISITION_VERSION_1: i32 = 1;

/// Number of bytes in a PipeWireAO acquisition-domain identifier.
pub const ACQUISITION_DOMAIN_SIZE: usize = 16;

/// Number of bytes in an IEEE 1588 PTP clock identity.
pub const ACQUISITION_PTP_CLOCK_ID_SIZE: usize = 8;

/// The clock domain used for an acquisition exposure timestamp.
#[derive(Clone, Copy, Debug, PartialEq, Eq, Hash, Structural)]
pub enum AcquisitionTimebase {
    /// A host-local Linux `CLOCK_MONOTONIC` timestamp.
    Monotonic,
    /// A PTP-qualified Linux `CLOCK_TAI` timestamp.
    Tai,
}

/// Acquisition metadata or one of its identifiers violates the native ABI.
#[derive(Clone, Copy, Debug, PartialEq, Eq, Structural)]
pub struct AcquisitionMetaError;

/// Whether every byte of `bytes` is zero.
pub open spec fn all_zero(bytes: Seq<u8>) -> bool {
    forall|i: int| 0 <= i < bytes.len() ==> bytes[i] == 0u8
}

/// Whether every byte of `bytes` is zero.
fn bytes_all_zero(bytes: &[u8]) -> (r: bool)
    ensures
        r == all_zero(bytes@),
{
    let mut i: usize = 0;
    while i < bytes.len()
        invariant
            i <= bytes@.len(),
            forall|j: int| 0 <= j < i ==> bytes@[j] == 0u8,
        decreases bytes@.len() - i,
    {
        if bytes[i] != 0 {
            return false;
        }
        i = i + 1;
    }
    true
}

/// A nonzero IEEE 1588 grandmaster clock identity.
#[derive(Debug, PartialEq, Eq, Hash)]
pub struct PtpClockIdentity([u8; ACQUISITION_PTP_CLOCK_ID_SIZE]);

impl PtpClockIdentity {
    #[verifier::type_invariant]
    spec fn nonzero(self) -> bool {
        !all_zero(self.0@)
    }

    /// The bytes of the identity.
    pub closed spec fn spec_bytes(self) -> Seq<u8> {
        self.0@
    }

    /// The identity with `bytes`, which must not all be zero.
    pub fn new(bytes: [u8; ACQUISITION_PTP_CLOCK_ID_SIZE]) -> (r: Result<
        PtpClockIdentity,
        AcquisitionMetaError,
    >)
        ensures
            match r {
                Ok(identity) => identity.spec_bytes() == bytes@ && !all_zero(bytes@),
                Err(_) => all_zero(bytes@),
            },
    {
        if bytes_all_zero(&bytes) {
            return Err(AcquisitionMetaError);
        }
        Ok(PtpClockIdentity(bytes))
    }

    /// The bytes of the identity.
    pub fn as_bytes(&self) -> (r: &[u8; ACQUISITION_PTP_CLOCK_ID_SIZE])
        ensures
            r@ == self.spec_bytes(),
            !all_zero(r@),
    {
        proof {
            use_type_invariant(self);
        }
        &self.0
    }
}

impl Clone for PtpClockIdentity {
    fn clone(&self) -> (r: PtpClockIdentity)
        ensures
            r == *self,
    {
        *self
    }
}

impl Copy for PtpClockIdentity {}

/// PTP authority used to qualify a cross-host exposure timestamp.
#[derive(Clone, Copy, Debug, PartialEq, Eq, Hash)]
pub struct AcquisitionPtpReference {
    grandmaster: PtpClockIdentity,
    domain_number: u8,
}

impl AcquisitionPtpReference {
    pub closed spec fn spec_grandmaster(self) -> PtpClockIdentity {
        self.grandmaster
    }

    pub closed spec fn spec_domain_number(self) -> u8 {
        self.domain_number
    }

    /// The reference to `grandmaster` in PTP domain `domain_number`.
    pub fn new(grandmaster: PtpClockIdentity, domain_number: u8) -> (r: AcquisitionPtpReference)
        ensures
            r.spec_grandmaster() == grandmaster,
            r.spec_domain_number() == domain_number,
    {
        AcquisitionPtpReference { grandmaster, domain_number }
    }

    pub fn grandmaster(self) -> (r: PtpClockIdentity)
        ensures
            r == self.spec_grandmaster(),
    {
        self.grandmaster
    }

    pub fn domain_number(self) -> (r: u8)
        ensures
            r == self.spec_domain_number(),
    {
        self.domain_number
    }
}

/// Opaque acquisition-domain identifier; [`AcquisitionDomain::new`] accepts
/// only nonzero bytes.
#[derive(Debug, PartialEq, Eq, Hash)]
pub struct AcquisitionDomain([u8; ACQUISITION_DOMAIN_SIZE]);

impl AcquisitionDomain {
    /// The bytes of the identifier.
    pub closed spec fn spec_bytes(self) -> Seq<u8> {
        self.0@
    }

    /// The domain identified by `bytes`, which must not all be zero.
    pub fn new(bytes: [u8; ACQUISITION_DOMAIN_SIZE]) -> (r: Result<
        AcquisitionDomain,
        AcquisitionMetaError,
    >)
        ensures
            match r {
                Ok(domain) => domain.spec_bytes() == bytes@ && !all_zero(bytes@),
                Err(_) => all_zero(bytes@),
            },
    {
        if bytes_all_zero(&bytes) {
            return Err(AcquisitionMetaError);
        }
        Ok(AcquisitionDomain(bytes))
    }

    /// The bytes of the identifier.
    pub fn as_bytes(&self) -> (r: &[u8; ACQUISITION_DOMAIN_SIZE])
        ensures
            r@ == self.spec_bytes(),
    {
        &self.0
    }
}

impl Clone for AcquisitionDomain {
    fn clone(&self) -> (r: AcquisitionDomain)
        ensures
            r == *self,
    {
        *self
    }
}

impl Copy for AcquisitionDomain {}

/// Complete physical-acquisition identity.
#[derive(Clone, Copy, Debug, PartialEq, Eq, Hash)]
pub struct AcquisitionIdentity {
    domain: AcquisitionDomain,
    generation: u64,
    sequence: u64,
}

impl AcquisitionIdentity {
    pub closed spec fn spec_domain(self) -> AcquisitionDomain {
        self.domain
    }

    pub closed spec fn spec_generation(self) -> u64 {
        self.generation
    }

    pub closed spec fn spec_sequence(self) -> u64 {
        self.sequence
    }

    /// The identity of acquisition `sequence` of `generation` in `domain`.
    pub fn new(domain: AcquisitionDomain, generation: u64, sequence: u64) -> (r: AcquisitionIdentity)
        ensures
            r.spec_domain() == domain,
            r.spec_generation() == generation,
            r.spec_sequence() == sequence,
    {
        AcquisitionIdentity { domain, generation, sequence }
    }

    pub fn domain(self) -> (r: AcquisitionDomain)
        ensures
            r == self.spec_domain(),
    {
        self.domain
    }

    pub fn generation(self) -> (r: u64)
        ensures
            r == self.spec_generation(),
    {
        self.generation
    }

    pub fn sequence(self) -> (r: u64)
        ensures
            r == self.spec_sequence(),
    {
        self.sequence
    }
}

/// The acquisition identity fields are valid.
pub const ACQUISITION_FLAG_IDENTITY_VALID: u32 = 1;

/// The exposure start and its uncertainty are valid.
pub const ACQUISITION_FLAG_EXPOSURE_START_VALID: u32 = 2;

/// The exposure duration is valid.
pub const ACQUISITION_FLAG_EXPOSURE_DURATION_VALID: u32 = 4;

/// The PTP grandmaster and domain number are valid.
pub const ACQUISITION_FLAG_PTP_REFERENCE_VALID: u32 = 8;

/// Every defined acquisition flag.
pub const ACQUISITION_FLAG_ALL: u32 = 15;

/// Acquisition metadata Version 1, whose timestamps are always monotonic.
pub const ACQUISITION_VERSION_1: u32 = 1;

/// Acquisition metadata Version 2, which names its timestamp clock.
pub const ACQUISITION_VERSION_2: u32 = 2;

/// Timebase value of a host-local `CLOCK_MONOTONIC` exposure timestamp.
pub const ACQUISITION_TIMEBASE_MONOTONIC: u32 = 0;

/// Timebase value of a PTP-qualified `CLOCK_TAI` exposure timestamp.
pub const ACQUISITION_TIMEBASE_TAI: u32 = 1;

/// Valid fields of acquisition metadata.
#[derive(Clone, Copy, Debug, PartialEq, Eq, Structural)]
pub struct AcquisitionFlags(pub u32);

impl AcquisitionFlags {
    /// Whether every flag of `flag` is set.
    pub open spec fn spec_contains(self, flag: u32) -> bool {
        self.0 & flag == flag
    }

    /// Whether every flag of `flag` is set.
    pub fn contains(self, flag: u32) -> (r: bool)
        ensures
            r == self.spec_contains(flag),
    {
        self.0 & flag == flag
    }
}

/// The fields of a native acquisition metadata record.
#[derive(Clone, Copy, Debug)]
pub struct MetaAcquisitionRaw {
    pub version: u32,
    pub abi_size: u32,
    pub flags: u32,
    /// Clock of the exposure timestamp (Version 2).
    pub timebase: u32,
    pub domain: [u8; ACQUISITION_DOMAIN_SIZE],
    pub generation: u64,
    pub sequence: u64,
    pub exposure_start_nsec: i64,
    pub timestamp_uncertainty_nsec: u64,
    pub exposure_duration_nsec: u64,
    pub ptp_grandmaster_id: [u8; ACQUISITION_PTP_CLOCK_ID_SIZE],
    pub ptp_domain_number: u8,
}

/// The flags of a record, when they are all defined.
pub open spec fn spec_acquisition_flags(raw: MetaAcquisitionRaw) -> Option<AcquisitionFlags> {
    if raw.flags & !ACQUISITION_FLAG_ALL == 0 {
        Some(AcquisitionFlags(raw.flags))
    } else {
        None
    }
}

/// Versioned acquisition identity and qualified exposure time, as read from
/// a record that the native validator accepted.
#[derive(Clone, Copy, Debug)]
pub struct MetaAcquisition(MetaAcquisitionRaw);

impl View for MetaAcquisition {
    type V = MetaAcquisitionRaw;

    closed spec fn view(&self) -> MetaAcquisitionRaw {
        self.0
    }
}

impl MetaAcquisition {
    /// Wraps `raw` when `valid`, the verdict of the native acquisition
    /// validator on it, accepts it.
    pub fn from_raw(raw: MetaAcquisitionRaw, valid: bool) -> (r: Result<
        MetaAcquisition,
        AcquisitionMetaError,
    >)
        ensures
            valid ==> r is Ok && r->Ok_0@ == raw,
            !valid ==> r is Err,
    {
        if valid {
            Ok(MetaAcquisition(raw))
        } else {
            Err(AcquisitionMetaError)
        }
    }

    /// The fields of the record.
    pub fn as_raw(&self) -> (r: &MetaAcquisitionRaw)
        ensures
            *r == self@,
    {
        &self.0
    }

    pub fn version(&self) -> (r: u32)
        ensures
            r == self@.version,
    {
        self.0.version
    }

    pub fn abi_size(&self) -> (r: u32)
        ensures
            r == self@.abi_size,
    {
        self.0.abi_size
    }

    /// The valid-field flags; an undefined flag bit is an error.
    pub fn flags(&self) -> (r: Result<AcquisitionFlags, AcquisitionMetaError>)
        ensures
            match spec_acquisition_flags(self@) {
                Some(flags) => r == Ok::<_, AcquisitionMetaError>(flags),
                None => r is Err,
            },
    {
        if self.0.flags & !ACQUISITION_FLAG_ALL == 0 {
            Ok(AcquisitionFlags(self.0.flags))
        } else {
            Err(AcquisitionMetaError)
        }
    }

    /// The acquisition identity, when its flag is set, read as the record
    /// holds it.
    pub fn identity(&self) -> (r: Result<Option<AcquisitionIdentity>, AcquisitionMetaError>)
        ensures
            match spec_acquisition_flags(self@) {
                None => r is Err,
                Some(flags) => if !flags.spec_contains(ACQUISITION_FLAG_IDENTITY_VALID) {
                    r == Ok::<_, AcquisitionMetaError>(None::<AcquisitionIdentity>)
                } else {
                    &&& r matches Ok(Some(identity))
                    &&& identity.spec_domain().spec_bytes() == self@.domain@
                    &&& identity.spec_generation() == self@.generation
                    &&& identity.spec_sequence() == self@.sequence
                },
            },
    {
        let flags = self.flags()?;
        if !flags.contains(ACQUISITION_FLAG_IDENTITY_VALID) {
            return Ok(None);
        }
        let domain = AcquisitionDomain(self.0.domain);
        Ok(Some(AcquisitionIdentity::new(domain, self.0.generation, self.0.sequence)))
    }

    /// Exposure start and its inclusive uncertainty bound, when valid.
    pub fn exposure_start(&self) -> (r: Result<Option<(i64, u64)>, AcquisitionMetaError>)
        ensures
            match spec_acquisition_flags(self@) {
                None => r is Err,
                Some(flags) => r == Ok::<_, AcquisitionMetaError>(
                    if flags.spec_contains(ACQUISITION_FLAG_EXPOSURE_START_VALID) {
                        Some((self@.exposure_start_nsec, self@.timestamp_uncertainty_nsec))
                    } else {
                        None
                    },
                ),
            },
    {
        let flags = self.flags()?;
        if flags.contains(ACQUISITION_FLAG_EXPOSURE_START_VALID) {
            Ok(Some((self.0.exposure_start_nsec, self.0.timestamp_uncertainty_nsec)))
        } else {
            Ok(None)
        }
    }

    /// The clock domain of the exposure timestamp, when exposure start is
    /// valid: always monotonic in Version 1, else named by the timebase.
    pub fn exposure_timebase(&self) -> (r: Result<Option<AcquisitionTimebase>, AcquisitionMetaError>)
        ensures
            match spec_acquisition_flags(self@) {
                None => r is Err,
                Some(flags) => if !flags.spec_contains(ACQUISITION_FLAG_EXPOSURE_START_VALID) {
                    r == Ok::<_, AcquisitionMetaError>(None::<AcquisitionTimebase>)
                } else if self@.version == ACQUISITION_VERSION_1
                    || self@.timebase == ACQUISITION_TIMEBASE_MONOTONIC {
                    r == Ok::<_, AcquisitionMetaError>(Some(AcquisitionTimebase::Monotonic))
                } else if self@.timebase == ACQUISITION_TIMEBASE_TAI {
                    r == Ok::<_, AcquisitionMetaError>(Some(AcquisitionTimebase::Tai))
                } else {
                    r is Err
                },
            },
    {
        let flags = self.flags()?;
        if !flags.contains(ACQUISITION_FLAG_EXPOSURE_START_VALID) {
            return Ok(None);
        }
        if self.0.version == ACQUISITION_VERSION_1 {
            return Ok(Some(AcquisitionTimebase::Monotonic));
        }
        if self.0.timebase == ACQUISITION_TIMEBASE_MONOTONIC {
            Ok(Some(AcquisitionTimebase::Monotonic))
        } else if self.0.timebase == ACQUISITION_TIMEBASE_TAI {
            Ok(Some(AcquisitionTimebase::Tai))
        } else {
            Err(AcquisitionMetaError)
        }
    }

    /// The PTP authority of a cross-host-comparable timestamp, when its
    /// flag is set. A reference flagged valid with an all-zero grandmaster
    /// is an error.
    pub fn ptp_reference(&self) -> (r: Result<Option<AcquisitionPtpReference>, AcquisitionMetaError>)
        ensures
            match spec_acquisition_flags(self@) {
                None => r is Err,
                Some(flags) => if !flags.spec_contains(ACQUISITION_FLAG_PTP_REFERENCE_VALID) {
                    r == Ok::<_, AcquisitionMetaError>(None::<AcquisitionPtpReference>)
                } else if all_zero(self@.ptp_grandmaster_id@) {
                    r is Err
                } else {
                    &&& r matches Ok(Some(reference))
                    &&& reference.spec_grandmaster().spec_bytes() == self@.ptp_grandmaster_id@
                    &&& reference.spec_domain_number() == self@.ptp_domain_number
                },
            },
    {
        let flags = self.flags()?;
        if !flags.contains(ACQUISITION_FLAG_PTP_REFERENCE_VALID) {
            return Ok(None);
        }
        let grandmaster = PtpClockIdentity::new(self.0.ptp_grandmaster_id)?;
        Ok(Some(AcquisitionPtpReference::new(grandmaster, self.0.ptp_domain_number)))
    }

    /// The exposure duration in nanoseconds, when valid.
    pub fn exposure_duration(&self) -> (r: Result<Option<u64>, AcquisitionMetaError>)
        ensures
            match spec_acquisition_flags(self@) {
                None => r is Err,
                Some(flags) => r == Ok::<_, AcquisitionMetaError>(
                    if flags.spec_contains(ACQUISITION_FLAG_EXPOSURE_DURATION_VALID) {
                        Some(self@.exposure_duration_nsec)
                    } else {
                        None
                    },
                ),
            },
    {
        let flags = self.flags()?;
        if flags.contains(ACQUISITION_FLAG_EXPOSURE_DURATION_VALID) {
            Ok(Some(self.0.exposure_duration_nsec))
        } else {
            Ok(None)
        }
    }
}

impl Metadata for MetaAcquisition {
    const META_TYPE: u32 = META_TYPE_ACQUISITION;
}

} // verus!

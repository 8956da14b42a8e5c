use vstd::prelude::*;

verus! {

/// Top-level media type of a format.
#[derive(Clone, Copy, Debug, PartialEq, Eq, Structural)]
pub enum MediaType {
    Unknown,
    Audio,
    Video,
    Image,
    Binary,
    Stream,
    Application,
    /// An identifier without a name here, such as an application-defined
    /// one; it keeps its raw value. `from_raw` builds it only for
    /// identifiers that no named value has.
    Other(u32),
}

impl MediaType {
    /// Native identifier of this value.
    pub open spec fn spec_raw(self) -> u32 {
        match self {
            MediaType::Other(raw) => raw,
            MediaType::Unknown => 0,
            MediaType::Audio => 1,
            MediaType::Video => 2,
            MediaType::Image => 3,
            MediaType::Binary => 4,
            MediaType::Stream => 5,
            MediaType::Application => 6,
        }
    }

    /// The value whose native identifier is `raw`: the named one, else
    /// `Other(raw)`.
    pub open spec fn spec_from_raw(raw: u32) -> MediaType {
        if raw == 0 {
            MediaType::Unknown
        } else if raw == 1 {
            MediaType::Audio
        } else if raw == 2 {
            MediaType::Video
        } else if raw == 3 {
            MediaType::Image
        } else if raw == 4 {
            MediaType::Binary
        } else if raw == 5 {
            MediaType::Stream
        } else if raw == 6 {
            MediaType::Application
        } else {
            MediaType::Other(raw)
        }
    }

    /// The value for a native identifier: the named one, else `Other(raw)`.
    pub fn from_raw(raw: u32) -> (r: MediaType)
        ensures
            r == MediaType::spec_from_raw(raw),
    {
        if raw == 0 {
            MediaType::Unknown
        } else if raw == 1 {
            MediaType::Audio
        } else if raw == 2 {
            MediaType::Video
        } else if raw == 3 {
            MediaType::Image
        } else if raw == 4 {
            MediaType::Binary
        } else if raw == 5 {
            MediaType::Stream
        } else if raw == 6 {
            MediaType::Application
        } else {
            MediaType::Other(raw)
        }
    }

    /// Get the native identifier of this value.
    pub fn as_raw(self) -> (r: u32)
        ensures
            r == self.spec_raw(),
    {
        match self {
            MediaType::Other(raw) => raw,
            MediaType::Unknown => 0,
            MediaType::Audio => 1,
            MediaType::Video => 2,
            MediaType::Image => 3,
            MediaType::Binary => 4,
            MediaType::Stream => 5,
            MediaType::Application => 6,
        }
    }

}

/// Every named value maps to a distinct identifier and reads back from it,
/// and any other identifier is kept as it is, as `Other`, which no named
/// value shares.
pub proof fn lemma_media_type_raw_round_trip(value: MediaType, raw: u32)
    ensures
        !(value is Other) ==> MediaType::spec_from_raw(value.spec_raw()) == value,
        MediaType::spec_from_raw(raw).spec_raw() == raw,
        MediaType::spec_from_raw(raw) is Other ==> MediaType::spec_from_raw(raw) == MediaType::Other(raw),
        MediaType::spec_from_raw(raw) is Other ==> forall|named: MediaType|
            !(named is Other) ==> #[trigger] named.spec_raw() != raw,
{
}

/// Media subtype of a format.
#[derive(Clone, Copy, Debug, PartialEq, Eq, Structural)]
pub enum MediaSubtype {
    Unknown,
    Raw,
    Dsp,
    /// S/PDIF
    Iec958,
    Dsd,
    Mp3,
    Aac,
    Vorbis,
    Wma,
    Ra,
    Sbc,
    Adpcm,
    G723,
    G726,
    G729,
    Amr,
    Gsm,
    Alac,
    Flac,
    Ape,
    Opus,
    H264,
    Mjpg,
    Dv,
    Mpegts,
    H263,
    Mpeg1,
    Mpeg2,
    Mpeg4,
    Xvid,
    Vc1,
    Vp8,
    Vp9,
    Bayer,
    Jpeg,
    Midi,
    /// Control stream; data holds a sequence of control events.
    Control,
    /// Packed N-dimensional typed elements.
    NdArray,
    /// An identifier without a name here, such as an application-defined
    /// one; it keeps its raw value. `from_raw` builds it only for
    /// identifiers that no named value has.
    Other(u32),
}

impl MediaSubtype {
    /// Native identifier of this value.
    pub open spec fn spec_raw(self) -> u32 {
        match self {
            MediaSubtype::Other(raw) => raw,
            MediaSubtype::Unknown => 0,
            MediaSubtype::Raw => 1,
            MediaSubtype::Dsp => 2,
            MediaSubtype::Iec958 => 3,
            MediaSubtype::Dsd => 4,
            MediaSubtype::Mp3 => 0x10001,
            MediaSubtype::Aac => 0x10002,
            MediaSubtype::Vorbis => 0x10003,
            MediaSubtype::Wma => 0x10004,
            MediaSubtype::Ra => 0x10005,
            MediaSubtype::Sbc => 0x10006,
            MediaSubtype::Adpcm => 0x10007,
            MediaSubtype::G723 => 0x10008,
            MediaSubtype::G726 => 0x10009,
            MediaSubtype::G729 => 0x1000a,
            MediaSubtype::Amr => 0x1000b,
            MediaSubtype::Gsm => 0x1000c,
            MediaSubtype::Alac => 0x1000d,
            MediaSubtype::Flac => 0x1000e,
            MediaSubtype::Ape => 0x1000f,
            MediaSubtype::Opus => 0x10010,
            MediaSubtype::H264 => 0x20001,
            MediaSubtype::Mjpg => 0x20002,
            MediaSubtype::Dv => 0x20003,
            MediaSubtype::Mpegts => 0x20004,
            MediaSubtype::H263 => 0x20005,
            MediaSubtype::Mpeg1 => 0x20006,
            MediaSubtype::Mpeg2 => 0x20007,
            MediaSubtype::Mpeg4 => 0x20008,
            MediaSubtype::Xvid => 0x20009,
            MediaSubtype::Vc1 => 0x2000a,
            MediaSubtype::Vp8 => 0x2000b,
            MediaSubtype::Vp9 => 0x2000c,
            MediaSubtype::Bayer => 0x2000d,
            MediaSubtype::Jpeg => 0x30001,
            MediaSubtype::Midi => 0x50001,
            MediaSubtype::Control => 0x60001,
            MediaSubtype::NdArray => 0x60002,
        }
    }

    /// The value whose native identifier is `raw`: the named one, else
    /// `Other(raw)`.
    pub open spec fn spec_from_raw(raw: u32) -> MediaSubtype {
        if raw == 0 {
            MediaSubtype::Unknown
        } else if raw == 1 {
            MediaSubtype::Raw
        } else if raw == 2 {
            MediaSubtype::Dsp
        } else if raw == 3 {
            MediaSubtype::Iec958
        } else if raw == 4 {
            MediaSubtype::Dsd
        } else if raw == 0x10001 {
            MediaSubtype::Mp3
        } else if raw == 0x10002 {
            MediaSubtype::Aac
        } else if raw == 0x10003 {
            MediaSubtype::Vorbis
        } else if raw == 0x10004 {
            MediaSubtype::Wma
        } else if raw == 0x10005 {
            MediaSubtype::Ra
        } else if raw == 0x10006 {
            MediaSubtype::Sbc
        } else if raw == 0x10007 {
            MediaSubtype::Adpcm
        } else if raw == 0x10008 {
            MediaSubtype::G723
        } else if raw == 0x10009 {
            MediaSubtype::G726
        } else if raw == 0x1000a {
            MediaSubtype::G729
        } else if raw == 0x1000b {
            MediaSubtype::Amr
        } else if raw == 0x1000c {
            MediaSubtype::Gsm
        } else if raw == 0x1000d {
            MediaSubtype::Alac
        } else if raw == 0x1000e {
            MediaSubtype::Flac
        } else if raw == 0x1000f {
            MediaSubtype::Ape
        } else if raw == 0x10010 {
            MediaSubtype::Opus
        } else if raw == 0x20001 {
            MediaSubtype::H264
        } else if raw == 0x20002 {
            MediaSubtype::Mjpg
        } else if raw == 0x20003 {
            MediaSubtype::Dv
        } else if raw == 0x20004 {
            MediaSubtype::Mpegts
        } else if raw == 0x20005 {
            MediaSubtype::H263
        } else if raw == 0x20006 {
            MediaSubtype::Mpeg1
        } else if raw == 0x20007 {
            MediaSubtype::Mpeg2
        } else if raw == 0x20008 {
            MediaSubtype::Mpeg4
        } else if raw == 0x20009 {
            MediaSubtype::Xvid
        } else if raw == 0x2000a {
            MediaSubtype::Vc1
        } else if raw == 0x2000b {
            MediaSubtype::Vp8
        } else if raw == 0x2000c {
            MediaSubtype::Vp9
        } else if raw == 0x2000d {
            MediaSubtype::Bayer
        } else if raw == 0x30001 {
            MediaSubtype::Jpeg
        } else if raw == 0x50001 {
            MediaSubtype::Midi
        } else if raw == 0x60001 {
            MediaSubtype::Control
        } else if raw == 0x60002 {
            MediaSubtype::NdArray
        } else {
            MediaSubtype::Other(raw)
        }
    }

    /// The value for a native identifier: the named one, else `Other(raw)`.
    pub fn from_raw(raw: u32) -> (r: MediaSubtype)
        ensures
            r == MediaSubtype::spec_from_raw(raw),
    {
        if raw == 0 {
            MediaSubtype::Unknown
        } else if raw == 1 {
            MediaSubtype::Raw
        } else if raw == 2 {
            MediaSubtype::Dsp
        } else if raw == 3 {
            MediaSubtype::Iec958
        } else if raw == 4 {
            MediaSubtype::Dsd
        } else if raw == 0x10001 {
            MediaSubtype::Mp3
        } else if raw == 0x10002 {
            MediaSubtype::Aac
        } else if raw == 0x10003 {
            MediaSubtype::Vorbis
        } else if raw == 0x10004 {
            MediaSubtype::Wma
        } else if raw == 0x10005 {
            MediaSubtype::Ra
        } else if raw == 0x10006 {
            MediaSubtype::Sbc
        } else if raw == 0x10007 {
            MediaSubtype::Adpcm
        } else if raw == 0x10008 {
            MediaSubtype::G723
        } else if raw == 0x10009 {
            MediaSubtype::G726
        } else if raw == 0x1000a {
            MediaSubtype::G729
        } else if raw == 0x1000b {
            MediaSubtype::Amr
        } else if raw == 0x1000c {
            MediaSubtype::Gsm
        } else if raw == 0x1000d {
            MediaSubtype::Alac
        } else if raw == 0x1000e {
            MediaSubtype::Flac
        } else if raw == 0x1000f {
            MediaSubtype::Ape
        } else if raw == 0x10010 {
            MediaSubtype::Opus
        } else if raw == 0x20001 {
            MediaSubtype::H264
        } else if raw == 0x20002 {
            MediaSubtype::Mjpg
        } else if raw == 0x20003 {
            MediaSubtype::Dv
        } else if raw == 0x20004 {
            MediaSubtype::Mpegts
        } else if raw == 0x20005 {
            MediaSubtype::H263
        } else if raw == 0x20006 {
            MediaSubtype::Mpeg1
        } else if raw == 0x20007 {
            MediaSubtype::Mpeg2
        } else if raw == 0x20008 {
            MediaSubtype::Mpeg4
        } else if raw == 0x20009 {
            MediaSubtype::Xvid
        } else if raw == 0x2000a {
            MediaSubtype::Vc1
        } else if raw == 0x2000b {
            MediaSubtype::Vp8
        } else if raw == 0x2000c {
            MediaSubtype::Vp9
        } else if raw == 0x2000d {
            MediaSubtype::Bayer
        } else if raw == 0x30001 {
            MediaSubtype::Jpeg
        } else if raw == 0x50001 {
            MediaSubtype::Midi
        } else if raw == 0x60001 {
            MediaSubtype::Control
        } else if raw == 0x60002 {
            MediaSubtype::NdArray
        } else {
            MediaSubtype::Other(raw)
        }
    }

    /// Get the native identifier of this value.
    pub fn as_raw(self) -> (r: u32)
        ensures
            r == self.spec_raw(),
    {
        match self {
            MediaSubtype::Other(raw) => raw,
            MediaSubtype::Unknown => 0,
            MediaSubtype::Raw => 1,
            MediaSubtype::Dsp => 2,
            MediaSubtype::Iec958 => 3,
            MediaSubtype::Dsd => 4,
            MediaSubtype::Mp3 => 0x10001,
            MediaSubtype::Aac => 0x10002,
            MediaSubtype::Vorbis => 0x10003,
            MediaSubtype::Wma => 0x10004,
            MediaSubtype::Ra => 0x10005,
            MediaSubtype::Sbc => 0x10006,
            MediaSubtype::Adpcm => 0x10007,
            MediaSubtype::G723 => 0x10008,
            MediaSubtype::G726 => 0x10009,
            MediaSubtype::G729 => 0x1000a,
            MediaSubtype::Amr => 0x1000b,
            MediaSubtype::Gsm => 0x1000c,
            MediaSubtype::Alac => 0x1000d,
            MediaSubtype::Flac => 0x1000e,
            MediaSubtype::Ape => 0x1000f,
            MediaSubtype::Opus => 0x10010,
            MediaSubtype::H264 => 0x20001,
            MediaSubtype::Mjpg => 0x20002,
            MediaSubtype::Dv => 0x20003,
            MediaSubtype::Mpegts => 0x20004,
            MediaSubtype::H263 => 0x20005,
            MediaSubtype::Mpeg1 => 0x20006,
            MediaSubtype::Mpeg2 => 0x20007,
            MediaSubtype::Mpeg4 => 0x20008,
            MediaSubtype::Xvid => 0x20009,
            MediaSubtype::Vc1 => 0x2000a,
            MediaSubtype::Vp8 => 0x2000b,
            MediaSubtype::Vp9 => 0x2000c,
            MediaSubtype::Bayer => 0x2000d,
            MediaSubtype::Jpeg => 0x30001,
            MediaSubtype::Midi => 0x50001,
            MediaSubtype::Control => 0x60001,
            MediaSubtype::NdArray => 0x60002,
        }
    }

    /// Whether the identifier lies in `[start, end)`.
    pub open spec fn spec_in_range(self, start: u32, end: u32) -> bool {
        start <= self.spec_raw() && self.spec_raw() < end
    }

    pub fn is_audio(self) -> (r: bool)
        ensures
            r == self.spec_in_range(0x10001, 0x20000),
    {
        let raw: u32 = self.as_raw();
        0x10001 <= raw && raw < 0x20000
    }

    pub fn is_video(self) -> (r: bool)
        ensures
            r == self.spec_in_range(0x20001, 0x30000),
    {
        let raw: u32 = self.as_raw();
        0x20001 <= raw && raw < 0x30000
    }

    pub fn is_image(self) -> (r: bool)
        ensures
            r == self.spec_in_range(0x30001, 0x40000),
    {
        let raw: u32 = self.as_raw();
        0x30001 <= raw && raw < 0x40000
    }

    pub fn is_binary(self) -> (r: bool)
        ensures
            r == self.spec_in_range(0x40000, 0x50000),
    {
        let raw: u32 = self.as_raw();
        0x40000 <= raw && raw < 0x50000
    }

    pub fn is_stream(self) -> (r: bool)
        ensures
            r == self.spec_in_range(0x50001, 0x60000),
    {
        let raw: u32 = self.as_raw();
        0x50001 <= raw && raw < 0x60000
    }

    pub fn is_application(self) -> (r: bool)
        ensures
            r == self.spec_in_range(0x60001, 0xffff_ffff),
    {
        let raw: u32 = self.as_raw();
        0x60001 <= raw && raw < 0xffff_ffff
    }

}

/// Every named value maps to a distinct identifier and reads back from it,
/// and any other identifier is kept as it is, as `Other`, which no named
/// value shares.
pub proof fn lemma_media_subtype_raw_round_trip(value: MediaSubtype, raw: u32)
    ensures
        !(value is Other) ==> MediaSubtype::spec_from_raw(value.spec_raw()) == value,
        MediaSubtype::spec_from_raw(raw).spec_raw() == raw,
        MediaSubtype::spec_from_raw(raw) is Other ==> MediaSubtype::spec_from_raw(raw) == MediaSubtype::Other(raw),
        MediaSubtype::spec_from_raw(raw) is Other ==> forall|named: MediaSubtype|
            !(named is Other) ==> #[trigger] named.spec_raw() != raw,
{
}

/// Keys of the properties of a format object.
#[derive(Clone, Copy, Debug, PartialEq, Eq, Structural)]
pub enum FormatProperties {
    /// media type (Id of [`MediaType`])
    MediaType,
    /// media subtype (Id of [`MediaSubtype`])
    MediaSubtype,
    AudioFormat,
    AudioFlags,
    AudioRate,
    AudioChannels,
    AudioPosition,
    AudioIec958Codec,
    AudioBitorder,
    AudioInterleave,
    AudioBitrate,
    AudioBlockAlign,
    AudioAacStreamFormat,
    AudioWmaProfile,
    AudioAmrBandMode,
    VideoFormat,
    VideoModifier,
    VideoSize,
    VideoFramerate,
    VideoMaxFramerate,
    VideoViews,
    VideoInterlaceMode,
    VideoPixelAspectRatio,
    VideoMultiviewMode,
    VideoMultiviewFlags,
    VideoChromaSite,
    VideoColorRange,
    VideoColorMatrix,
    VideoTransferFunction,
    VideoColorPrimaries,
    VideoProfile,
    VideoLevel,
    VideoH264StreamFormat,
    VideoH264Alignment,
    /// control types (Id)
    ControlTypes,
    /// ndarray element type (Id of [`ElementType`])
    NdArrayElementType,
    /// positive logical dimensions (Array of Int)
    NdArrayShape,
    /// contiguous storage order (Id of [`NdArrayLayout`])
    NdArrayLayout,
    /// optional sample rate (Fraction)
    NdArrayRate,
    /// An identifier without a name here, such as an application-defined
    /// one; it keeps its raw value. `from_raw` builds it only for
    /// identifiers that no named value has.
    Other(u32),
}

impl FormatProperties {
    /// Native identifier of this value.
    pub open spec fn spec_raw(self) -> u32 {
        match self {
            FormatProperties::Other(raw) => raw,
            FormatProperties::MediaType => 1,
            FormatProperties::MediaSubtype => 2,
            FormatProperties::AudioFormat => 0x10001,
            FormatProperties::AudioFlags => 0x10002,
            FormatProperties::AudioRate => 0x10003,
            FormatProperties::AudioChannels => 0x10004,
            FormatProperties::AudioPosition => 0x10005,
            FormatProperties::AudioIec958Codec => 0x10006,
            FormatProperties::AudioBitorder => 0x10007,
            FormatProperties::AudioInterleave => 0x10008,
            FormatProperties::AudioBitrate => 0x10009,
            FormatProperties::AudioBlockAlign => 0x1000a,
            FormatProperties::AudioAacStreamFormat => 0x1000b,
            FormatProperties::AudioWmaProfile => 0x1000c,
            FormatProperties::AudioAmrBandMode => 0x1000d,
            FormatProperties::VideoFormat => 0x20001,
            FormatProperties::VideoModifier => 0x20002,
            FormatProperties::VideoSize => 0x20003,
            FormatProperties::VideoFramerate => 0x20004,
            FormatProperties::VideoMaxFramerate => 0x20005,
            FormatProperties::VideoViews => 0x20006,
            FormatProperties::VideoInterlaceMode => 0x20007,
            FormatProperties::VideoPixelAspectRatio => 0x20008,
            FormatProperties::VideoMultiviewMode => 0x20009,
            FormatProperties::VideoMultiviewFlags => 0x2000a,
            FormatProperties::VideoChromaSite => 0x2000b,
            FormatProperties::VideoColorRange => 0x2000c,
            FormatProperties::VideoColorMatrix => 0x2000d,
            FormatProperties::VideoTransferFunction => 0x2000e,
            FormatProperties::VideoColorPrimaries => 0x2000f,
            FormatProperties::VideoProfile => 0x20010,
            FormatProperties::VideoLevel => 0x20011,
            FormatProperties::VideoH264StreamFormat => 0x20012,
            FormatProperties::VideoH264Alignment => 0x20013,
            FormatProperties::ControlTypes => 0x60001,
            FormatProperties::NdArrayElementType => 0x60002,
            FormatProperties::NdArrayShape => 0x60003,
            FormatProperties::NdArrayLayout => 0x60004,
            FormatProperties::NdArrayRate => 0x60005,
        }
    }

    /// The value whose native identifier is `raw`: the named one, else
    /// `Other(raw)`.
    pub open spec fn spec_from_raw(raw: u32) -> FormatProperties {
        if raw == 1 {
            FormatProperties::MediaType
        } else if raw == 2 {
            FormatProperties::MediaSubtype
        } else if raw == 0x10001 {
            FormatProperties::AudioFormat
        } else if raw == 0x10002 {
            FormatProperties::AudioFlags
        } else if raw == 0x10003 {
            FormatProperties::AudioRate
        } else if raw == 0x10004 {
            FormatProperties::AudioChannels
        } else if raw == 0x10005 {
            FormatProperties::AudioPosition
        } else if raw == 0x10006 {
            FormatProperties::AudioIec958Codec
        } else if raw == 0x10007 {
            FormatProperties::AudioBitorder
        } else if raw == 0x10008 {
            FormatProperties::AudioInterleave
        } else if raw == 0x10009 {
            FormatProperties::AudioBitrate
        } else if raw == 0x1000a {
            FormatProperties::AudioBlockAlign
        } else if raw == 0x1000b {
            FormatProperties::AudioAacStreamFormat
        } else if raw == 0x1000c {
            FormatProperties::AudioWmaProfile
        } else if raw == 0x1000d {
            FormatProperties::AudioAmrBandMode
        } else if raw == 0x20001 {
            FormatProperties::VideoFormat
        } else if raw == 0x20002 {
            FormatProperties::VideoModifier
        } else if raw == 0x20003 {
            FormatProperties::VideoSize
        } else if raw == 0x20004 {
            FormatProperties::VideoFramerate
        } else if raw == 0x20005 {
            FormatProperties::VideoMaxFramerate
        } else if raw == 0x20006 {
            FormatProperties::VideoViews
        } else if raw == 0x20007 {
            FormatProperties::VideoInterlaceMode
        } else if raw == 0x20008 {
            FormatProperties::VideoPixelAspectRatio
        } else if raw == 0x20009 {
            FormatProperties::VideoMultiviewMode
        } else if raw == 0x2000a {
            FormatProperties::VideoMultiviewFlags
        } else if raw == 0x2000b {
            FormatProperties::VideoChromaSite
        } else if raw == 0x2000c {
            FormatProperties::VideoColorRange
        } else if raw == 0x2000d {
            FormatProperties::VideoColorMatrix
        } else if raw == 0x2000e {
            FormatProperties::VideoTransferFunction
        } else if raw == 0x2000f {
            FormatProperties::VideoColorPrimaries
        } else if raw == 0x20010 {
            FormatProperties::VideoProfile
        } else if raw == 0x20011 {
            FormatProperties::VideoLevel
        } else if raw == 0x20012 {
            FormatProperties::VideoH264StreamFormat
        } else if raw == 0x20013 {
            FormatProperties::VideoH264Alignment
        } else if raw == 0x60001 {
            FormatProperties::ControlTypes
        } else if raw == 0x60002 {
            FormatProperties::NdArrayElementType
        } else if raw == 0x60003 {
            FormatProperties::NdArrayShape
        } else if raw == 0x60004 {
            FormatProperties::NdArrayLayout
        } else if raw == 0x60005 {
            FormatProperties::NdArrayRate
        } else {
            FormatProperties::Other(raw)
        }
    }

    /// The value for a native identifier: the named one, else `Other(raw)`.
    pub fn from_raw(raw: u32) -> (r: FormatProperties)
        ensures
            r == FormatProperties::spec_from_raw(raw),
    {
        if raw == 1 {
            FormatProperties::MediaType
        } else if raw == 2 {
            FormatProperties::MediaSubtype
        } else if raw == 0x10001 {
            FormatProperties::AudioFormat
        } else if raw == 0x10002 {
            FormatProperties::AudioFlags
        } else if raw == 0x10003 {
            FormatProperties::AudioRate
        } else if raw == 0x10004 {
            FormatProperties::AudioChannels
        } else if raw == 0x10005 {
            FormatProperties::AudioPosition
        } else if raw == 0x10006 {
            FormatProperties::AudioIec958Codec
        } else if raw == 0x10007 {
            FormatProperties::AudioBitorder
        } else if raw == 0x10008 {
            FormatProperties::AudioInterleave
        } else if raw == 0x10009 {
            FormatProperties::AudioBitrate
        } else if raw == 0x1000a {
            FormatProperties::AudioBlockAlign
        } else if raw == 0x1000b {
            FormatProperties::AudioAacStreamFormat
        } else if raw == 0x1000c {
            FormatProperties::AudioWmaProfile
        } else if raw == 0x1000d {
            FormatProperties::AudioAmrBandMode
        } else if raw == 0x20001 {
            FormatProperties::VideoFormat
        } else if raw == 0x20002 {
            FormatProperties::VideoModifier
        } else if raw == 0x20003 {
            FormatProperties::VideoSize
        } else if raw == 0x20004 {
            FormatProperties::VideoFramerate
        } else if raw == 0x20005 {
            FormatProperties::VideoMaxFramerate
        } else if raw == 0x20006 {
            FormatProperties::VideoViews
        } else if raw == 0x20007 {
            FormatProperties::VideoInterlaceMode
        } else if raw == 0x20008 {
            FormatProperties::VideoPixelAspectRatio
        } else if raw == 0x20009 {
            FormatProperties::VideoMultiviewMode
        } else if raw == 0x2000a {
            FormatProperties::VideoMultiviewFlags
        } else if raw == 0x2000b {
            FormatProperties::VideoChromaSite
        } else if raw == 0x2000c {
            FormatProperties::VideoColorRange
        } else if raw == 0x2000d {
            FormatProperties::VideoColorMatrix
        } else if raw == 0x2000e {
            FormatProperties::VideoTransferFunction
        } else if raw == 0x2000f {
            FormatProperties::VideoColorPrimaries
        } else if raw == 0x20010 {
            FormatProperties::VideoProfile
        } else if raw == 0x20011 {
            FormatProperties::VideoLevel
        } else if raw == 0x20012 {
            FormatProperties::VideoH264StreamFormat
        } else if raw == 0x20013 {
            FormatProperties::VideoH264Alignment
        } else if raw == 0x60001 {
            FormatProperties::ControlTypes
        } else if raw == 0x60002 {
            FormatProperties::NdArrayElementType
        } else if raw == 0x60003 {
            FormatProperties::NdArrayShape
        } else if raw == 0x60004 {
            FormatProperties::NdArrayLayout
        } else if raw == 0x60005 {
            FormatProperties::NdArrayRate
        } else {
            FormatProperties::Other(raw)
        }
    }

    /// Get the native identifier of this value.
    pub fn as_raw(self) -> (r: u32)
        ensures
            r == self.spec_raw(),
    {
        match self {
            FormatProperties::Other(raw) => raw,
            FormatProperties::MediaType => 1,
            FormatProperties::MediaSubtype => 2,
            FormatProperties::AudioFormat => 0x10001,
            FormatProperties::AudioFlags => 0x10002,
            FormatProperties::AudioRate => 0x10003,
            FormatProperties::AudioChannels => 0x10004,
            FormatProperties::AudioPosition => 0x10005,
            FormatProperties::AudioIec958Codec => 0x10006,
            FormatProperties::AudioBitorder => 0x10007,
            FormatProperties::AudioInterleave => 0x10008,
            FormatProperties::AudioBitrate => 0x10009,
            FormatProperties::AudioBlockAlign => 0x1000a,
            FormatProperties::AudioAacStreamFormat => 0x1000b,
            FormatProperties::AudioWmaProfile => 0x1000c,
            FormatProperties::AudioAmrBandMode => 0x1000d,
            FormatProperties::VideoFormat => 0x20001,
            FormatProperties::VideoModifier => 0x20002,
            FormatProperties::VideoSize => 0x20003,
            FormatProperties::VideoFramerate => 0x20004,
            FormatProperties::VideoMaxFramerate => 0x20005,
            FormatProperties::VideoViews => 0x20006,
            FormatProperties::VideoInterlaceMode => 0x20007,
            FormatProperties::VideoPixelAspectRatio => 0x20008,
            FormatProperties::VideoMultiviewMode => 0x20009,
            FormatProperties::VideoMultiviewFlags => 0x2000a,
            FormatProperties::VideoChromaSite => 0x2000b,
            FormatProperties::VideoColorRange => 0x2000c,
            FormatProperties::VideoColorMatrix => 0x2000d,
            FormatProperties::VideoTransferFunction => 0x2000e,
            FormatProperties::VideoColorPrimaries => 0x2000f,
            FormatProperties::VideoProfile => 0x20010,
            FormatProperties::VideoLevel => 0x20011,
            FormatProperties::VideoH264StreamFormat => 0x20012,
            FormatProperties::VideoH264Alignment => 0x20013,
            FormatProperties::ControlTypes => 0x60001,
            FormatProperties::NdArrayElementType => 0x60002,
            FormatProperties::NdArrayShape => 0x60003,
            FormatProperties::NdArrayLayout => 0x60004,
            FormatProperties::NdArrayRate => 0x60005,
        }
    }

    /// Whether the identifier lies in `[start, end)`.
    pub open spec fn spec_in_range(self, start: u32, end: u32) -> bool {
        start <= self.spec_raw() && self.spec_raw() < end
    }

    pub fn is_audio(self) -> (r: bool)
        ensures
            r == self.spec_in_range(0x10001, 0x20000),
    {
        let raw: u32 = self.as_raw();
        0x10001 <= raw && raw < 0x20000
    }

    pub fn is_video(self) -> (r: bool)
        ensures
            r == self.spec_in_range(0x20001, 0x30000),
    {
        let raw: u32 = self.as_raw();
        0x20001 <= raw && raw < 0x30000
    }

    pub fn is_image(self) -> (r: bool)
        ensures
            r == self.spec_in_range(0x30000, 0x40000),
    {
        let raw: u32 = self.as_raw();
        0x30000 <= raw && raw < 0x40000
    }

    pub fn is_binary(self) -> (r: bool)
        ensures
            r == self.spec_in_range(0x40000, 0x50000),
    {
        let raw: u32 = self.as_raw();
        0x40000 <= raw && raw < 0x50000
    }

    pub fn is_stream(self) -> (r: bool)
        ensures
            r == self.spec_in_range(0x50000, 0x60000),
    {
        let raw: u32 = self.as_raw();
        0x50000 <= raw && raw < 0x60000
    }

    pub fn is_application(self) -> (r: bool)
        ensures
            r == self.spec_in_range(0x60000, 0xffff_ffff),
    {
        let raw: u32 = self.as_raw();
        0x60000 <= raw && raw < 0xffff_ffff
    }

}

/// Every named value maps to a distinct identifier and reads back from it,
/// and any other identifier is kept as it is, as `Other`, which no named
/// value shares.
pub proof fn lemma_format_properties_raw_round_trip(value: FormatProperties, raw: u32)
    ensures
        !(value is Other) ==> FormatProperties::spec_from_raw(value.spec_raw()) == value,
        FormatProperties::spec_from_raw(raw).spec_raw() == raw,
        FormatProperties::spec_from_raw(raw) is Other ==> FormatProperties::spec_from_raw(raw) == FormatProperties::Other(raw),
        FormatProperties::spec_from_raw(raw) is Other ==> forall|named: FormatProperties|
            !(named is Other) ==> #[trigger] named.spec_raw() != raw,
{
}

/// Scalar representation of an [`NdArrayFormat`](crate::format::NdArrayFormat) element.
#[derive(Clone, Copy, Debug, PartialEq, Eq, Structural)]
pub enum ElementType {
    Unknown,
    /// Boolean byte; only zero and one are valid.
    Bool8,
    I8,
    U8,
    I16Le,
    U16Le,
    I32Le,
    U32Le,
    I64Le,
    U64Le,
    I128Le,
    U128Le,
    F8E4M3Fn,
    F8E4M3Fnuz,
    F8E5M2,
    F8E5M2Fnuz,
    /// IEEE 754 binary16, little-endian.
    F16Le,
    /// bfloat16, little-endian.
    Bf16Le,
    /// IEEE 754 binary32, little-endian.
    F32Le,
    /// IEEE 754 binary64, little-endian.
    F64Le,
    /// IEEE 754 binary128, little-endian.
    F128Le,
    ComplexF16Le,
    ComplexBf16Le,
    ComplexF32Le,
    ComplexF64Le,
    ComplexF128Le,
    /// First application-defined fixed-width scalar type ID.
    StartCustom,
    /// An identifier without a name here, such as an application-defined
    /// one; it keeps its raw value. `from_raw` builds it only for
    /// identifiers that no named value has.
    Other(u32),
}

impl ElementType {
    /// Native identifier of this value.
    pub open spec fn spec_raw(self) -> u32 {
        match self {
            ElementType::Other(raw) => raw,
            ElementType::Unknown => 0,
            ElementType::Bool8 => 1,
            ElementType::I8 => 2,
            ElementType::U8 => 3,
            ElementType::I16Le => 4,
            ElementType::U16Le => 5,
            ElementType::I32Le => 6,
            ElementType::U32Le => 7,
            ElementType::I64Le => 8,
            ElementType::U64Le => 9,
            ElementType::I128Le => 10,
            ElementType::U128Le => 11,
            ElementType::F8E4M3Fn => 12,
            ElementType::F8E4M3Fnuz => 13,
            ElementType::F8E5M2 => 14,
            ElementType::F8E5M2Fnuz => 15,
            ElementType::F16Le => 16,
            ElementType::Bf16Le => 17,
            ElementType::F32Le => 18,
            ElementType::F64Le => 19,
            ElementType::F128Le => 20,
            ElementType::ComplexF16Le => 21,
            ElementType::ComplexBf16Le => 22,
            ElementType::ComplexF32Le => 23,
            ElementType::ComplexF64Le => 24,
            ElementType::ComplexF128Le => 25,
            ElementType::StartCustom => 0x10000,
        }
    }

    /// The value whose native identifier is `raw`: the named one, else
    /// `Other(raw)`.
    pub open spec fn spec_from_raw(raw: u32) -> ElementType {
        if raw == 0 {
            ElementType::Unknown
        } else if raw == 1 {
            ElementType::Bool8
        } else if raw == 2 {
            ElementType::I8
        } else if raw == 3 {
            ElementType::U8
        } else if raw == 4 {
            ElementType::I16Le
        } else if raw == 5 {
            ElementType::U16Le
        } else if raw == 6 {
            ElementType::I32Le
        } else if raw == 7 {
            ElementType::U32Le
        } else if raw == 8 {
            ElementType::I64Le
        } else if raw == 9 {
            ElementType::U64Le
        } else if raw == 10 {
            ElementType::I128Le
        } else if raw == 11 {
            ElementType::U128Le
        } else if raw == 12 {
            ElementType::F8E4M3Fn
        } else if raw == 13 {
            ElementType::F8E4M3Fnuz
        } else if raw == 14 {
            ElementType::F8E5M2
        } else if raw == 15 {
            ElementType::F8E5M2Fnuz
        } else if raw == 16 {
            ElementType::F16Le
        } else if raw == 17 {
            ElementType::Bf16Le
        } else if raw == 18 {
            ElementType::F32Le
        } else if raw == 19 {
            ElementType::F64Le
        } else if raw == 20 {
            ElementType::F128Le
        } else if raw == 21 {
            ElementType::ComplexF16Le
        } else if raw == 22 {
            ElementType::ComplexBf16Le
        } else if raw == 23 {
            ElementType::ComplexF32Le
        } else if raw == 24 {
            ElementType::ComplexF64Le
        } else if raw == 25 {
            ElementType::ComplexF128Le
        } else if raw == 0x10000 {
            ElementType::StartCustom
        } else {
            ElementType::Other(raw)
        }
    }

    /// The value for a native identifier: the named one, else `Other(raw)`.
    pub fn from_raw(raw: u32) -> (r: ElementType)
        ensures
            r == ElementType::spec_from_raw(raw),
    {
        if raw == 0 {
            ElementType::Unknown
        } else if raw == 1 {
            ElementType::Bool8
        } else if raw == 2 {
            ElementType::I8
        } else if raw == 3 {
            ElementType::U8
        } else if raw == 4 {
            ElementType::I16Le
        } else if raw == 5 {
            ElementType::U16Le
        } else if raw == 6 {
            ElementType::I32Le
        } else if raw == 7 {
            ElementType::U32Le
        } else if raw == 8 {
            ElementType::I64Le
        } else if raw == 9 {
            ElementType::U64Le
        } else if raw == 10 {
            ElementType::I128Le
        } else if raw == 11 {
            ElementType::U128Le
        } else if raw == 12 {
            ElementType::F8E4M3Fn
        } else if raw == 13 {
            ElementType::F8E4M3Fnuz
        } else if raw == 14 {
            ElementType::F8E5M2
        } else if raw == 15 {
            ElementType::F8E5M2Fnuz
        } else if raw == 16 {
            ElementType::F16Le
        } else if raw == 17 {
            ElementType::Bf16Le
        } else if raw == 18 {
            ElementType::F32Le
        } else if raw == 19 {
            ElementType::F64Le
        } else if raw == 20 {
            ElementType::F128Le
        } else if raw == 21 {
            ElementType::ComplexF16Le
        } else if raw == 22 {
            ElementType::ComplexBf16Le
        } else if raw == 23 {
            ElementType::ComplexF32Le
        } else if raw == 24 {
            ElementType::ComplexF64Le
        } else if raw == 25 {
            ElementType::ComplexF128Le
        } else if raw == 0x10000 {
            ElementType::StartCustom
        } else {
            ElementType::Other(raw)
        }
    }

    /// Get the native identifier of this value.
    pub fn as_raw(self) -> (r: u32)
        ensures
            r == self.spec_raw(),
    {
        match self {
            ElementType::Other(raw) => raw,
            ElementType::Unknown => 0,
            ElementType::Bool8 => 1,
            ElementType::I8 => 2,
            ElementType::U8 => 3,
            ElementType::I16Le => 4,
            ElementType::U16Le => 5,
            ElementType::I32Le => 6,
            ElementType::U32Le => 7,
            ElementType::I64Le => 8,
            ElementType::U64Le => 9,
            ElementType::I128Le => 10,
            ElementType::U128Le => 11,
            ElementType::F8E4M3Fn => 12,
            ElementType::F8E4M3Fnuz => 13,
            ElementType::F8E5M2 => 14,
            ElementType::F8E5M2Fnuz => 15,
            ElementType::F16Le => 16,
            ElementType::Bf16Le => 17,
            ElementType::F32Le => 18,
            ElementType::F64Le => 19,
            ElementType::F128Le => 20,
            ElementType::ComplexF16Le => 21,
            ElementType::ComplexBf16Le => 22,
            ElementType::ComplexF32Le => 23,
            ElementType::ComplexF64Le => 24,
            ElementType::ComplexF128Le => 25,
            ElementType::StartCustom => 0x10000,
        }
    }

}

/// Every named value maps to a distinct identifier and reads back from it,
/// and any other identifier is kept as it is, as `Other`, which no named
/// value shares.
pub proof fn lemma_element_type_raw_round_trip(value: ElementType, raw: u32)
    ensures
        !(value is Other) ==> ElementType::spec_from_raw(value.spec_raw()) == value,
        ElementType::spec_from_raw(raw).spec_raw() == raw,
        ElementType::spec_from_raw(raw) is Other ==> ElementType::spec_from_raw(raw) == ElementType::Other(raw),
        ElementType::spec_from_raw(raw) is Other ==> forall|named: ElementType|
            !(named is Other) ==> #[trigger] named.spec_raw() != raw,
{
}

/// Contiguous storage order of an [`NdArrayFormat`](crate::format::NdArrayFormat).
#[derive(Clone, Copy, Debug, PartialEq, Eq, Structural)]
pub enum NdArrayLayout {
    Unknown,
    /// The last logical axis is contiguous.
    RowMajor,
    /// The first logical axis is contiguous.
    ColumnMajor,
    /// An identifier without a name here, such as an application-defined
    /// one; it keeps its raw value. `from_raw` builds it only for
    /// identifiers that no named value has.
    Other(u32),
}

impl NdArrayLayout {
    /// Native identifier of this value.
    pub open spec fn spec_raw(self) -> u32 {
        match self {
            NdArrayLayout::Other(raw) => raw,
            NdArrayLayout::Unknown => 0,
            NdArrayLayout::RowMajor => 1,
            NdArrayLayout::ColumnMajor => 2,
        }
    }

    /// The value whose native identifier is `raw`: the named one, else
    /// `Other(raw)`.
    pub open spec fn spec_from_raw(raw: u32) -> NdArrayLayout {
        if raw == 0 {
            NdArrayLayout::Unknown
        } else if raw == 1 {
            NdArrayLayout::RowMajor
        } else if raw == 2 {
            NdArrayLayout::ColumnMajor
        } else {
            NdArrayLayout::Other(raw)
        }
    }

    /// The value for a native identifier: the named one, else `Other(raw)`.
    pub fn from_raw(raw: u32) -> (r: NdArrayLayout)
        ensures
            r == NdArrayLayout::spec_from_raw(raw),
    {
        if raw == 0 {
            NdArrayLayout::Unknown
        } else if raw == 1 {
            NdArrayLayout::RowMajor
        } else if raw == 2 {
            NdArrayLayout::ColumnMajor
        } else {
            NdArrayLayout::Other(raw)
        }
    }

    /// Get the native identifier of this value.
    pub fn as_raw(self) -> (r: u32)
        ensures
            r == self.spec_raw(),
    {
        match self {
            NdArrayLayout::Other(raw) => raw,
            NdArrayLayout::Unknown => 0,
            NdArrayLayout::RowMajor => 1,
            NdArrayLayout::ColumnMajor => 2,
        }
    }

}

/// Every named value maps to a distinct identifier and reads back from it,
/// and any other identifier is kept as it is, as `Other`, which no named
/// value shares.
pub proof fn lemma_nd_array_layout_raw_round_trip(value: NdArrayLayout, raw: u32)
    ensures
        !(value is Other) ==> NdArrayLayout::spec_from_raw(value.spec_raw()) == value,
        NdArrayLayout::spec_from_raw(raw).spec_raw() == raw,
        NdArrayLayout::spec_from_raw(raw) is Other ==> NdArrayLayout::spec_from_raw(raw) == NdArrayLayout::Other(raw),
        NdArrayLayout::spec_from_raw(raw) is Other ==> forall|named: NdArrayLayout|
            !(named is Other) ==> #[trigger] named.spec_raw() != raw,
{
}

} // verus!

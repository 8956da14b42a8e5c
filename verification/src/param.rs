//! Keys and values of SPA buffer parameters.

use vstd::prelude::*;

verus! {

/// Properties of a buffers parameter object.
#[derive(Clone, Copy, Debug, PartialEq, Eq, Structural)]
pub enum BufferProperties {
    Buffers,
    Blocks,
    Size,
    Stride,
    Align,
    DataType,
    MetaType,
    /// Best-effort backing page size (an identifier of [`BufferPageSizeHint`]).
    PageSizeHint,
    /// A key without a name here; it keeps its raw value. `from_raw`
    /// builds it only for keys that no named property has.
    Other(u32),
}

impl BufferProperties {
    /// The SPA key of this property.
    pub open spec fn spec_raw(self) -> u32 {
        match self {
            BufferProperties::Buffers => 1,
            BufferProperties::Blocks => 2,
            BufferProperties::Size => 3,
            BufferProperties::Stride => 4,
            BufferProperties::Align => 5,
            BufferProperties::DataType => 6,
            BufferProperties::MetaType => 7,
            BufferProperties::PageSizeHint => 0x0100_0000,
            BufferProperties::Other(raw) => raw,
        }
    }

    /// The property with SPA key `raw`: the named one, else `Other(raw)`.
    pub open spec fn spec_from_raw(raw: u32) -> BufferProperties {
        if raw == 1 {
            BufferProperties::Buffers
        } else if raw == 2 {
            BufferProperties::Blocks
        } else if raw == 3 {
            BufferProperties::Size
        } else if raw == 4 {
            BufferProperties::Stride
        } else if raw == 5 {
            BufferProperties::Align
        } else if raw == 6 {
            BufferProperties::DataType
        } else if raw == 7 {
            BufferProperties::MetaType
        } else if raw == 0x0100_0000 {
            BufferProperties::PageSizeHint
        } else {
            BufferProperties::Other(raw)
        }
    }

    /// The property with SPA key `raw`: the named one, else `Other(raw)`.
    pub fn from_raw(raw: u32) -> (r: BufferProperties)
        ensures
            r == BufferProperties::spec_from_raw(raw),
    {
        if raw == 1 {
            BufferProperties::Buffers
        } else if raw == 2 {
            BufferProperties::Blocks
        } else if raw == 3 {
            BufferProperties::Size
        } else if raw == 4 {
            BufferProperties::Stride
        } else if raw == 5 {
            BufferProperties::Align
        } else if raw == 6 {
            BufferProperties::DataType
        } else if raw == 7 {
            BufferProperties::MetaType
        } else if raw == 0x0100_0000 {
            BufferProperties::PageSizeHint
        } else {
            BufferProperties::Other(raw)
        }
    }

    /// The SPA key of this property.
    pub fn as_raw(self) -> (r: u32)
        ensures
            r == self.spec_raw(),
    {
        match self {
            BufferProperties::Buffers => 1,
            BufferProperties::Blocks => 2,
            BufferProperties::Size => 3,
            BufferProperties::Stride => 4,
            BufferProperties::Align => 5,
            BufferProperties::DataType => 6,
            BufferProperties::MetaType => 7,
            BufferProperties::PageSizeHint => 0x0100_0000,
            BufferProperties::Other(raw) => raw,
        }
    }
}

/// Best-effort backing page size for host-allocated shared buffers.
#[derive(Clone, Copy, Debug, PartialEq, Eq, Structural)]
pub enum BufferPageSizeHint {
    /// Use ordinary system pages.
    Normal,
    /// Try the system default hugetlb size, then ordinary pages.
    HugeDefault,
    /// Try 2 MiB hugetlb pages, then ordinary pages.
    Huge2Mb,
    /// Try 1 GiB hugetlb pages, then ordinary pages.
    Huge1Gb,
    /// A hint without a name here; it keeps its raw value. `from_raw`
    /// builds it only for identifiers that no named hint has.
    Other(u32),
}

impl BufferPageSizeHint {
    /// The SPA identifier of this hint.
    pub open spec fn spec_raw(self) -> u32 {
        match self {
            BufferPageSizeHint::Normal => 0,
            BufferPageSizeHint::HugeDefault => 1,
            BufferPageSizeHint::Huge2Mb => 2,
            BufferPageSizeHint::Huge1Gb => 3,
            BufferPageSizeHint::Other(raw) => raw,
        }
    }

    /// The SPA identifier of this hint.
    pub fn as_raw(self) -> (r: u32)
        ensures
            r == self.spec_raw(),
    {
        match self {
            BufferPageSizeHint::Normal => 0,
            BufferPageSizeHint::HugeDefault => 1,
            BufferPageSizeHint::Huge2Mb => 2,
            BufferPageSizeHint::Huge1Gb => 3,
            BufferPageSizeHint::Other(raw) => raw,
        }
    }

    /// The hint with identifier `raw`: the named one, else `Other(raw)`.
    pub open spec fn spec_from_raw(raw: u32) -> BufferPageSizeHint {
        if raw == 0 {
            BufferPageSizeHint::Normal
        } else if raw == 1 {
            BufferPageSizeHint::HugeDefault
        } else if raw == 2 {
            BufferPageSizeHint::Huge2Mb
        } else if raw == 3 {
            BufferPageSizeHint::Huge1Gb
        } else {
            BufferPageSizeHint::Other(raw)
        }
    }

    /// The hint with identifier `raw`: the named one, else `Other(raw)`.
    pub fn from_raw(raw: u32) -> (r: BufferPageSizeHint)
        ensures
            r == BufferPageSizeHint::spec_from_raw(raw),
    {
        if raw == 0 {
            BufferPageSizeHint::Normal
        } else if raw == 1 {
            BufferPageSizeHint::HugeDefault
        } else if raw == 2 {
            BufferPageSizeHint::Huge2Mb
        } else if raw == 3 {
            BufferPageSizeHint::Huge1Gb
        } else {
            BufferPageSizeHint::Other(raw)
        }
    }
}

/// Every named hint maps to a distinct identifier and reads back from it,
/// and any other identifier is kept as it is, as `Other`, which no named
/// hint shares.
pub proof fn lemma_page_size_hint_raw_round_trip(hint: BufferPageSizeHint, raw: u32)
    ensures
        !(hint is Other) ==> BufferPageSizeHint::spec_from_raw(hint.spec_raw()) == hint,
        BufferPageSizeHint::spec_from_raw(raw).spec_raw() == raw,
        BufferPageSizeHint::spec_from_raw(raw) is Other ==> BufferPageSizeHint::spec_from_raw(raw)
            == BufferPageSizeHint::Other(raw),
        BufferPageSizeHint::spec_from_raw(raw) is Other ==> forall|named: BufferPageSizeHint|
            !(named is Other) ==> #[trigger] named.spec_raw() != raw,
{
}

/// Every named key maps to a distinct SPA key and reads back from it, and
/// any other key is kept as it is, as `Other`, which no named property
/// shares.
pub proof fn lemma_buffer_properties_raw_round_trip(property: BufferProperties, raw: u32)
    ensures
        !(property is Other) ==> BufferProperties::spec_from_raw(property.spec_raw()) == property,
        BufferProperties::spec_from_raw(raw).spec_raw() == raw,
        BufferProperties::spec_from_raw(raw) is Other ==> BufferProperties::spec_from_raw(raw)
            == BufferProperties::Other(raw),
        BufferProperties::spec_from_raw(raw) is Other ==> forall|named: BufferProperties|
            !(named is Other) ==> #[trigger] named.spec_raw() != raw,
{
}

} // verus!

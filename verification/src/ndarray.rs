//! Checks for typed views of complete, native-endian ndarray buffers.

use vstd::prelude::*;

use crate::buffer::{Chunk, ChunkFlags, DataPlane};
use crate::format::{shape_product, spec_element_size, NdArrayFormat, NdArraySpec};
use crate::ids::{ElementType, NdArrayLayout};

verus! {

/// A complete buffer does not match its negotiated ndarray format.
#[derive(Clone, Copy, Debug, PartialEq, Eq, Structural)]
pub enum Error {
    /// The scalar type of the view differs from the negotiated element type.
    ElementType,
    /// Direct typed views require a native little-endian representation.
    Endianness,
    /// The first data plane is absent or not mapped.
    Data,
    /// The chunk is empty or corrupted.
    ChunkFlags,
    /// The chunk offset, size, or stride differs from the packed format.
    ChunkLayout,
    /// The mapped address does not satisfy the scalar alignment.
    Alignment,
}

/// Closes [`Element`] to the scalar types of this module.
pub trait Sealed {}

/// A scalar type with a direct native representation in an ndarray buffer.
///
/// Implemented for the integer primitives; every bit pattern of these is a
/// valid value.
pub trait Element: Sealed + Copy {
    /// Negotiated element type corresponding to this scalar.
    spec fn spec_element_type() -> ElementType;

    /// Negotiated element type corresponding to this scalar.
    fn element_type() -> (r: ElementType)
        ensures
            r == Self::spec_element_type(),
    ;
}

impl Sealed for i8 {}

impl Element for i8 {
    open spec fn spec_element_type() -> ElementType {
        ElementType::I8
    }

    fn element_type() -> (r: ElementType) {
        ElementType::I8
    }
}

impl Sealed for u8 {}

impl Element for u8 {
    open spec fn spec_element_type() -> ElementType {
        ElementType::U8
    }

    fn element_type() -> (r: ElementType) {
        ElementType::U8
    }
}

impl Sealed for i16 {}

impl Element for i16 {
    open spec fn spec_element_type() -> ElementType {
        ElementType::I16Le
    }

    fn element_type() -> (r: ElementType) {
        ElementType::I16Le
    }
}

impl Sealed for u16 {}

impl Element for u16 {
    open spec fn spec_element_type() -> ElementType {
        ElementType::U16Le
    }

    fn element_type() -> (r: ElementType) {
        ElementType::U16Le
    }
}

impl Sealed for i32 {}

impl Element for i32 {
    open spec fn spec_element_type() -> ElementType {
        ElementType::I32Le
    }

    fn element_type() -> (r: ElementType) {
        ElementType::I32Le
    }
}

impl Sealed for u32 {}

impl Element for u32 {
    open spec fn spec_element_type() -> ElementType {
        ElementType::U32Le
    }

    fn element_type() -> (r: ElementType) {
        ElementType::U32Le
    }
}

impl Sealed for i64 {}

impl Element for i64 {
    open spec fn spec_element_type() -> ElementType {
        ElementType::I64Le
    }

    fn element_type() -> (r: ElementType) {
        ElementType::I64Le
    }
}

impl Sealed for u64 {}

impl Element for u64 {
    open spec fn spec_element_type() -> ElementType {
        ElementType::U64Le
    }

    fn element_type() -> (r: ElementType) {
        ElementType::U64Le
    }
}

impl Sealed for i128 {}

impl Element for i128 {
    open spec fn spec_element_type() -> ElementType {
        ElementType::I128Le
    }

    fn element_type() -> (r: ElementType) {
        ElementType::I128Le
    }
}

impl Sealed for u128 {}

impl Element for u128 {
    open spec fn spec_element_type() -> ElementType {
        ElementType::U128Le
    }

    fn element_type() -> (r: ElementType) {
        ElementType::U128Le
    }
}

/// The least and greatest value that an integer element type holds, or
/// `None` for an element type that is no integer.
pub open spec fn integer_element_range(element: ElementType) -> Option<(int, int)> {
    match element {
        ElementType::I8 => Some((-0x80, 0x7f)),
        ElementType::U8 => Some((0, 0xff)),
        ElementType::I16Le => Some((-0x8000, 0x7fff)),
        ElementType::U16Le => Some((0, 0xffff)),
        ElementType::I32Le => Some((-0x8000_0000, 0x7fff_ffff)),
        ElementType::U32Le => Some((0, 0xffff_ffff)),
        ElementType::I64Le => Some((-0x8000_0000_0000_0000, 0x7fff_ffff_ffff_ffff)),
        ElementType::U64Le => Some((0, 0xffff_ffff_ffff_ffff)),
        ElementType::I128Le => Some(
            (-0x8000_0000_0000_0000_0000_0000_0000_0000, 0x7fff_ffff_ffff_ffff_ffff_ffff_ffff_ffff),
        ),
        ElementType::U128Le => Some((0, 0xffff_ffff_ffff_ffff_ffff_ffff_ffff_ffff)),
        _ => None,
    }
}

/// Each integer scalar views the element type that holds exactly its
/// values: the same signedness and width, so the element's packed size is
/// the scalar's size.
pub proof fn lemma_scalar_element_types()
    ensures
        integer_element_range(<i8 as Element>::spec_element_type()) == Some((i8::MIN as int, i8::MAX as int)),
        integer_element_range(<u8 as Element>::spec_element_type()) == Some((u8::MIN as int, u8::MAX as int)),
        integer_element_range(<i16 as Element>::spec_element_type()) == Some((i16::MIN as int, i16::MAX as int)),
        integer_element_range(<u16 as Element>::spec_element_type()) == Some((u16::MIN as int, u16::MAX as int)),
        integer_element_range(<i32 as Element>::spec_element_type()) == Some((i32::MIN as int, i32::MAX as int)),
        integer_element_range(<u32 as Element>::spec_element_type()) == Some((u32::MIN as int, u32::MAX as int)),
        integer_element_range(<i64 as Element>::spec_element_type()) == Some((i64::MIN as int, i64::MAX as int)),
        integer_element_range(<u64 as Element>::spec_element_type()) == Some((u64::MIN as int, u64::MAX as int)),
        integer_element_range(<i128 as Element>::spec_element_type()) == Some((i128::MIN as int, i128::MAX as int)),
        integer_element_range(<u128 as Element>::spec_element_type()) == Some((u128::MIN as int, u128::MAX as int)),
        spec_element_size(<i8 as Element>::spec_element_type()) == Some(vstd::layout::size_of::<i8>() as usize),
        spec_element_size(<u8 as Element>::spec_element_type()) == Some(vstd::layout::size_of::<u8>() as usize),
        spec_element_size(<i16 as Element>::spec_element_type()) == Some(vstd::layout::size_of::<i16>() as usize),
        spec_element_size(<u16 as Element>::spec_element_type()) == Some(vstd::layout::size_of::<u16>() as usize),
        spec_element_size(<i32 as Element>::spec_element_type()) == Some(vstd::layout::size_of::<i32>() as usize),
        spec_element_size(<u32 as Element>::spec_element_type()) == Some(vstd::layout::size_of::<u32>() as usize),
        spec_element_size(<i64 as Element>::spec_element_type()) == Some(vstd::layout::size_of::<i64>() as usize),
        spec_element_size(<u64 as Element>::spec_element_type()) == Some(vstd::layout::size_of::<u64>() as usize),
        spec_element_size(<i128 as Element>::spec_element_type()) == Some(vstd::layout::size_of::<i128>() as usize),
        spec_element_size(<u128 as Element>::spec_element_type()) == Some(vstd::layout::size_of::<u128>() as usize),
{
    broadcast use vstd::layout::layout_of_primitives;

}

/// The error of viewing elements of type `element` of size `element_size`
/// in `format` on a target whose byte order is little-endian when
/// `little_endian` holds.
pub open spec fn type_error(
    format: NdArraySpec,
    element: ElementType,
    element_size: usize,
    little_endian: bool,
) -> Option<Error> {
    if format.element_type != element {
        Some(Error::ElementType)
    } else if !little_endian && element_size > 1 {
        Some(Error::Endianness)
    } else {
        None
    }
}

/// Checks that a view of `element` values matches the negotiated format.
pub fn validate_type(
    format: &NdArrayFormat,
    element: ElementType,
    element_size: usize,
    little_endian: bool,
) -> (r: Result<(), Error>)
    ensures
        match r {
            Ok(()) => type_error(format@, element, element_size, little_endian) is None,
            Err(error) => type_error(format@, element, element_size, little_endian) == Some(error),
        },
{
    if format.element_type() != element {
        return Err(Error::ElementType);
    }
    if !little_endian && element_size > 1 {
        return Err(Error::Endianness);
    }
    Ok(())
}

/// Byte stride of the contiguous axis, when it fits a SPA `Int`.
pub open spec fn spec_stride(format: NdArraySpec) -> Option<i32> {
    let dimension = if format.layout == NdArrayLayout::RowMajor {
        format.shape.last()
    } else {
        format.shape.first()
    };
    let bytes = dimension * spec_element_size(format.element_type).unwrap();
    if bytes <= i32::MAX {
        Some(bytes as i32)
    } else {
        None
    }
}

/// Byte stride of the contiguous axis: the last one for row-major storage,
/// the first one for column-major storage.
pub fn stride(format: &NdArrayFormat) -> (r: Result<i32, Error>)
    ensures
        match r {
            Ok(stride) => spec_stride(format@) == Some(stride),
            Err(error) => error == Error::ChunkLayout && spec_stride(format@) is None,
        },
{
    proof {
        use_type_invariant(format);
    }
    let shape = format.shape();
    let dimension = if format.layout() == NdArrayLayout::RowMajor {
        shape[shape.len() - 1]
    } else {
        shape[0]
    };
    let size = match format.element_type().size() {
        Some(size) => size,
        None => return Err(Error::ElementType),
    };
    assert(size <= 32);
    assert((dimension as u64) * (size as u64) <= 0xffff_ffff * 32) by (nonlinear_arith)
        requires
            dimension <= 0xffff_ffff,
            size <= 32,
    ;
    let bytes: u64 = (dimension as u64) * (size as u64);
    if bytes > 0x7fff_ffff {
        return Err(Error::ChunkLayout);
    }
    Ok(bytes as i32)
}

/// Whether `address` is a multiple of `align`; only zero is a multiple of
/// zero.
pub open spec fn aligned(address: int, align: int) -> bool {
    if align == 0 {
        address == 0
    } else {
        address % align == 0
    }
}

/// Alignment means being a whole multiple: for a positive alignment, every
/// multiple is aligned and no address that a multiple misses by less than
/// the alignment is.
pub proof fn lemma_aligned_is_multiple(multiple: int, align: int, offset: int)
    requires
        align > 0,
        0 < offset < align,
    ensures
        aligned(multiple * align, align),
        !aligned(multiple * align + offset, align),
{
    vstd::arithmetic::div_mod::lemma_mod_multiples_basic(multiple, align);
    vstd::arithmetic::div_mod::lemma_mod_multiples_vanish(multiple, offset, align);
    vstd::arithmetic::mul::lemma_mul_is_commutative(multiple, align);
    vstd::arithmetic::div_mod::lemma_small_mod(offset as nat, align as nat);
}

/// Checks that `address` satisfies the scalar alignment `align`.
pub fn validate_alignment(address: u128, align: usize) -> (r: Result<(), Error>)
    ensures
        match r {
            Ok(()) => aligned(address as int, align as int),
            Err(error) => error == Error::Alignment && !aligned(address as int, align as int),
        },
{
    let multiple = if align == 0 {
        address == 0
    } else {
        address % (align as u128) == 0
    };
    if multiple {
        Ok(())
    } else {
        Err(Error::Alignment)
    }
}

/// The readable byte range `[start, end)` of a complete input, or the error
/// that reading it reports.
pub open spec fn input_range(
    planes: Seq<DataPlane>,
    format: NdArraySpec,
    element: ElementType,
    element_size: usize,
    element_align: usize,
    little_endian: bool,
) -> Result<(int, int), Error> {
    let byte_count = shape_product(format.shape) * spec_element_size(format.element_type).unwrap();
    if type_error(format, element, element_size, little_endian) is Some {
        Err(type_error(format, element, element_size, little_endian).unwrap())
    } else if spec_stride(format) is None {
        Err(Error::ChunkLayout)
    } else if planes.len() == 0 {
        Err(Error::Data)
    } else if planes[0].chunk.flags.spec_unusable() {
        Err(Error::ChunkFlags)
    } else if planes[0].chunk.size != byte_count || (planes[0].chunk.stride != 0
        && planes[0].chunk.stride != spec_stride(format).unwrap()) {
        Err(Error::ChunkLayout)
    } else if !planes[0].spec_mapped() || planes[0].maxsize == 0 {
        Err(Error::Data)
    } else {
        let start = planes[0].chunk.offset % planes[0].maxsize;
        if start + byte_count > planes[0].maxsize {
            Err(Error::ChunkLayout)
        } else if !aligned(planes[0].address + start, element_align as int) {
            Err(Error::Alignment)
        } else {
            Ok((start as int, start + byte_count))
        }
    }
}

/// Locates one packed ndarray input in its first data plane.
///
/// The element type, complete chunk extent, contiguous-axis stride, and
/// alignment are checked before the bytes may be read as elements. The
/// range is relative to the start of the plane's mapped memory.
pub fn input(
    planes: &[DataPlane],
    format: &NdArrayFormat,
    element: ElementType,
    element_size: usize,
    element_align: usize,
    little_endian: bool,
) -> (r: Result<(usize, usize), Error>)
    ensures
        match r {
            Ok((start, end)) => input_range(
                planes@,
                format@,
                element,
                element_size,
                element_align,
                little_endian,
            ) == Ok::<(int, int), Error>((start as int, end as int)),
            Err(error) => input_range(
                planes@,
                format@,
                element,
                element_size,
                element_align,
                little_endian,
            ) == Err::<(int, int), Error>(error),
        },
{
    validate_type(format, element, element_size, little_endian)?;
    let byte_count = format.byte_count();
    let stride = stride(format)?;
    if planes.len() == 0 {
        return Err(Error::Data);
    }
    let data = planes[0];
    if data.chunk.flags.is_unusable() {
        return Err(Error::ChunkFlags);
    }
    let size = data.chunk.size as usize;
    if size != byte_count || (data.chunk.stride != 0 && data.chunk.stride != stride) {
        return Err(Error::ChunkLayout);
    }
    if data.address == 0 || data.maxsize == 0 {
        return Err(Error::Data);
    }
    let start = (data.chunk.offset % data.maxsize) as usize;
    let end = match start.checked_add(byte_count) {
        Some(end) => end,
        None => return Err(Error::ChunkLayout),
    };
    if end > data.maxsize as usize {
        return Err(Error::ChunkLayout);
    }
    validate_alignment((data.address as u128) + (start as u128), element_align)?;
    Ok((start, end))
}

/// The chunk that publishes a complete output, or the error that writing
/// it reports.
pub open spec fn output_chunk(
    planes: Seq<DataPlane>,
    format: NdArraySpec,
    element: ElementType,
    element_size: usize,
    element_align: usize,
    little_endian: bool,
) -> Result<Chunk, Error> {
    let byte_count = shape_product(format.shape) * spec_element_size(format.element_type).unwrap();
    if type_error(format, element, element_size, little_endian) is Some {
        Err(type_error(format, element, element_size, little_endian).unwrap())
    } else if spec_stride(format) is None {
        Err(Error::ChunkLayout)
    } else if planes.len() == 0 || !planes[0].spec_mapped() {
        Err(Error::Data)
    } else if byte_count > planes[0].maxsize {
        Err(Error::ChunkLayout)
    } else if !aligned(planes[0].address as int, element_align as int) {
        Err(Error::Alignment)
    } else {
        Ok(
            Chunk {
                offset: 0,
                size: byte_count as u32,
                stride: spec_stride(format).unwrap(),
                flags: ChunkFlags(0),
            },
        )
    }
}

/// Prepares packed ndarray output storage in the first data plane.
///
/// On success the writable range is `[0, size)` of the plane's mapped
/// memory, where `size` is the size of the returned chunk; the chunk must be
/// stored before the buffer is queued, and every element initialized.
pub fn output(
    planes: &[DataPlane],
    format: &NdArrayFormat,
    element: ElementType,
    element_size: usize,
    element_align: usize,
    little_endian: bool,
) -> (r: Result<Chunk, Error>)
    ensures
        r == output_chunk(planes@, format@, element, element_size, element_align, little_endian),
{
    validate_type(format, element, element_size, little_endian)?;
    let byte_count = format.byte_count();
    let stride = stride(format)?;
    if planes.len() == 0 || planes[0].address == 0 {
        return Err(Error::Data);
    }
    let data = planes[0];
    if byte_count > data.maxsize as usize {
        return Err(Error::ChunkLayout);
    }
    validate_alignment(data.address as u128, element_align)?;
    Ok(Chunk { offset: 0, size: byte_count as u32, stride, flags: ChunkFlags::empty() })
}

} // verus!

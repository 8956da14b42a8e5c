//! Native packed ndarray formats and their SPA property encoding.

use vstd::prelude::*;
use vstd::multiset::Multiset;

use crate::ids::{
    lemma_element_type_raw_round_trip, lemma_nd_array_layout_raw_round_trip, ElementType, FormatProperties, MediaSubtype, MediaType, NdArrayLayout};
use crate::pod::{is_id_value, Choice, ChoiceEnum, ChoiceFlags, ChoiceValue, Fraction, Id, Property, PropertyFlags, Value, ValueArray};

verus! {

/// Largest dimension that fits a SPA `Int`.
pub const MAX_DIMENSION: u32 = 0x7fff_ffff;

/// Packed size in bytes of one element of type `element_type`.
pub open spec fn spec_element_size(element_type: ElementType) -> Option<usize> {
    match element_type {
        ElementType::Bool8 | ElementType::I8 | ElementType::U8 | ElementType::F8E4M3Fn
        | ElementType::F8E4M3Fnuz | ElementType::F8E5M2 | ElementType::F8E5M2Fnuz => Some(1usize),
        ElementType::I16Le | ElementType::U16Le | ElementType::F16Le | ElementType::Bf16Le => Some(
            2usize,
        ),
        ElementType::I32Le | ElementType::U32Le | ElementType::F32Le | ElementType::ComplexF16Le
        | ElementType::ComplexBf16Le => Some(4usize),
        ElementType::I64Le | ElementType::U64Le | ElementType::F64Le | ElementType::ComplexF32Le => {
            Some(8usize)
        },
        ElementType::I128Le | ElementType::U128Le | ElementType::F128Le
        | ElementType::ComplexF64Le => Some(16usize),
        ElementType::ComplexF128Le => Some(32usize),
        ElementType::Unknown | ElementType::StartCustom | ElementType::Other(_) => None,
    }
}

/// An element's packed size is the bit width its name gives, in bytes; a
/// complex element packs two parts of its width. Placeholders and unnamed
/// identifiers have no size.
pub proof fn lemma_element_sizes_follow_their_widths(other: u32)
    ensures
        spec_element_size(ElementType::Bool8) == Some(1usize),
        spec_element_size(ElementType::I8) == Some(1usize),
        spec_element_size(ElementType::U8) == Some(1usize),
        spec_element_size(ElementType::I16Le) == Some(2usize),
        spec_element_size(ElementType::U16Le) == Some(2usize),
        spec_element_size(ElementType::I32Le) == Some(4usize),
        spec_element_size(ElementType::U32Le) == Some(4usize),
        spec_element_size(ElementType::I64Le) == Some(8usize),
        spec_element_size(ElementType::U64Le) == Some(8usize),
        spec_element_size(ElementType::I128Le) == Some(16usize),
        spec_element_size(ElementType::U128Le) == Some(16usize),
        spec_element_size(ElementType::F8E4M3Fn) == Some(1usize),
        spec_element_size(ElementType::F8E4M3Fnuz) == Some(1usize),
        spec_element_size(ElementType::F8E5M2) == Some(1usize),
        spec_element_size(ElementType::F8E5M2Fnuz) == Some(1usize),
        spec_element_size(ElementType::F16Le) == Some(2usize),
        spec_element_size(ElementType::Bf16Le) == Some(2usize),
        spec_element_size(ElementType::F32Le) == Some(4usize),
        spec_element_size(ElementType::F64Le) == Some(8usize),
        spec_element_size(ElementType::F128Le) == Some(16usize),
        spec_element_size(ElementType::ComplexF16Le) == Some(4usize),
        spec_element_size(ElementType::ComplexBf16Le) == Some(4usize),
        spec_element_size(ElementType::ComplexF32Le) == Some(8usize),
        spec_element_size(ElementType::ComplexF64Le) == Some(16usize),
        spec_element_size(ElementType::ComplexF128Le) == Some(32usize),
        spec_element_size(ElementType::Unknown) is None,
        spec_element_size(ElementType::StartCustom) is None,
        spec_element_size(ElementType::Other(other)) is None,
{
}

impl ElementType {
    /// Packed size of one element, or `None` for an unsupported value.
    pub fn size(self) -> (r: Option<usize>)
        ensures
            r == spec_element_size(self),
    {
        match self {
            ElementType::Bool8 | ElementType::I8 | ElementType::U8 | ElementType::F8E4M3Fn
            | ElementType::F8E4M3Fnuz | ElementType::F8E5M2 | ElementType::F8E5M2Fnuz => Some(1),
            ElementType::I16Le | ElementType::U16Le | ElementType::F16Le | ElementType::Bf16Le => {
                Some(2)
            },
            ElementType::I32Le | ElementType::U32Le | ElementType::F32Le
            | ElementType::ComplexF16Le | ElementType::ComplexBf16Le => Some(4),
            ElementType::I64Le | ElementType::U64Le | ElementType::F64Le
            | ElementType::ComplexF32Le => Some(8),
            ElementType::I128Le | ElementType::U128Le | ElementType::F128Le
            | ElementType::ComplexF64Le => Some(16),
            ElementType::ComplexF128Le => Some(32),
            ElementType::Unknown | ElementType::StartCustom | ElementType::Other(_) => None,
        }
    }
}

/// Whether `layout` is a contiguous storage order that formats may use.
pub open spec fn supported_layout(layout: NdArrayLayout) -> bool {
    layout == NdArrayLayout::RowMajor || layout == NdArrayLayout::ColumnMajor
}

/// Whether both terms of a fraction are nonzero.
pub open spec fn fraction_positive(value: Fraction) -> bool {
    value.num != 0 && value.denom != 0
}

/// Invalid native ndarray, vector, or matrix format.
#[derive(Clone, Copy, Debug, PartialEq, Eq, Structural)]
pub enum NdArrayFormatError {
    UnsupportedElementType,
    UnsupportedLayout,
    EmptyShape,
    ZeroDimension { axis: usize },
    DimensionTooLarge { axis: usize },
    ElementCountOverflow,
    ByteCountOverflow,
    InvalidRate,
    MissingProperty(FormatProperties),
    DuplicateProperty(FormatProperties),
    InvalidProperty(FormatProperties),
    WrongRank { expected: usize, actual: usize },
    NonCanonicalVectorLayout,
    UnsupportedElementTypeAlternative { index: usize },
    UnsupportedLayoutAlternative { index: usize },
    MissingRateForChoice,
    InvalidRateChoice,
}

/// Number of elements of an array with dimensions `shape`.
pub open spec fn shape_product(shape: Seq<u32>) -> int
    decreases shape.len(),
{
    if shape.len() == 0 {
        1
    } else {
        shape_product(shape.drop_last()) * shape.last()
    }
}

/// The first shape error from axis `axis` on, where `count` elements are
/// spanned by the axes before it.
pub open spec fn shape_error_from(shape: Seq<u32>, axis: int, count: int) -> Option<
    NdArrayFormatError,
>
    decreases shape.len() - axis,
{
    if axis < 0 || axis >= shape.len() {
        None
    } else if shape[axis] == 0 {
        Some(NdArrayFormatError::ZeroDimension { axis: axis as usize })
    } else if shape[axis] > MAX_DIMENSION {
        Some(NdArrayFormatError::DimensionTooLarge { axis: axis as usize })
    } else if count * shape[axis] > usize::MAX {
        Some(NdArrayFormatError::ElementCountOverflow)
    } else {
        shape_error_from(shape, axis + 1, count * shape[axis])
    }
}

/// The error that validating a format with these components reports, or
/// `None` when the components form a valid format.
pub open spec fn ndarray_error(
    element_type: ElementType,
    shape: Seq<u32>,
    layout: NdArrayLayout,
    rate: Option<Fraction>,
) -> Option<NdArrayFormatError> {
    if spec_element_size(element_type) is None {
        Some(NdArrayFormatError::UnsupportedElementType)
    } else if !supported_layout(layout) {
        Some(NdArrayFormatError::UnsupportedLayout)
    } else if rate matches Some(r) && !fraction_positive(r) {
        Some(NdArrayFormatError::InvalidRate)
    } else if shape.len() == 0 {
        Some(NdArrayFormatError::EmptyShape)
    } else if shape_error_from(shape, 0, 1) is Some {
        shape_error_from(shape, 0, 1)
    } else if shape_product(shape) * spec_element_size(element_type).unwrap() > usize::MAX {
        Some(NdArrayFormatError::ByteCountOverflow)
    } else {
        None
    }
}

/// Abstract content of an [`NdArrayFormat`].
pub ghost struct NdArraySpec {
    pub element_type: ElementType,
    pub shape: Seq<u32>,
    pub layout: NdArrayLayout,
    pub rate: Option<Fraction>,
}

/// Whether the components form a valid format.
pub open spec fn ndarray_valid(spec: NdArraySpec) -> bool {
    ndarray_error(spec.element_type, spec.shape, spec.layout, spec.rate) is None
}

proof fn lemma_shape_product_step(shape: Seq<u32>, axis: int)
    requires
        0 <= axis < shape.len(),
    ensures
        shape_product(shape.take(axis + 1)) == shape_product(shape.take(axis)) * shape[axis],
{
    assert(shape.take(axis + 1).drop_last() =~= shape.take(axis));
}

proof fn lemma_shape_product_nonnegative(shape: Seq<u32>)
    ensures
        shape_product(shape) >= 0,
    decreases shape.len(),
{
    if shape.len() > 0 {
        lemma_shape_product_nonnegative(shape.drop_last());
        let p = shape_product(shape.drop_last());
        let d = shape.last() as int;
        assert(p * d >= 0) by (nonlinear_arith)
            requires
                p >= 0,
                d >= 0,
        ;
    }
}

/// A shape without a per-axis error spans at most `usize::MAX` elements.
proof fn lemma_shape_error_free_bounds(shape: Seq<u32>, axis: int, count: int)
    requires
        0 <= axis <= shape.len(),
        count == shape_product(shape.take(axis)),
        0 <= count <= usize::MAX,
        shape_error_from(shape, axis, count) is None,
    ensures
        shape_product(shape) <= usize::MAX,
    decreases shape.len() - axis,
{
    if axis == shape.len() {
        assert(shape.take(axis) =~= shape);
    } else {
        lemma_shape_product_step(shape, axis);
        let d = shape[axis] as int;
        assert(count * d >= 0) by (nonlinear_arith)
            requires
                count >= 0,
                d >= 0,
        ;
        lemma_shape_error_free_bounds(shape, axis + 1, count * d);
    }
}

/// Native packed ndarray format.
#[derive(Debug, PartialEq, Eq)]
pub struct NdArrayFormat {
    element_type: ElementType,
    shape: Vec<u32>,
    layout: NdArrayLayout,
    rate: Option<Fraction>,
}

impl View for NdArrayFormat {
    type V = NdArraySpec;

    closed spec fn view(&self) -> NdArraySpec {
        NdArraySpec {
            element_type: self.element_type,
            shape: self.shape@,
            layout: self.layout,
            rate: self.rate,
        }
    }
}

impl Clone for NdArrayFormat {
    fn clone(&self) -> (r: NdArrayFormat)
        ensures
            r@ == self@,
    {
        proof {
            use_type_invariant(self);
        }
        NdArrayFormat {
            element_type: self.element_type,
            shape: self.shape.clone(),
            layout: self.layout,
            rate: self.rate,
        }
    }
}

impl NdArrayFormat {
    /// A format is always valid.
    #[verifier::type_invariant]
    pub open spec fn inv(self) -> bool {
        ndarray_valid(self@)
    }

    /// Validates and wraps a packed ndarray format.
    pub fn new(
        element_type: ElementType,
        shape: Vec<u32>,
        layout: NdArrayLayout,
        rate: Option<Fraction>,
    ) -> (r: Result<NdArrayFormat, NdArrayFormatError>)
        ensures
            match r {
                Ok(format) => format@ == NdArraySpec {
                    element_type,
                    shape: shape@,
                    layout,
                    rate,
                } && ndarray_error(element_type, shape@, layout, rate) is None,
                Err(error) => ndarray_error(element_type, shape@, layout, rate) == Some(error),
            },
    {
        let element_size = match element_type.size() {
            Some(size) => size,
            None => return Err(NdArrayFormatError::UnsupportedElementType),
        };
        if layout != NdArrayLayout::RowMajor && layout != NdArrayLayout::ColumnMajor {
            return Err(NdArrayFormatError::UnsupportedLayout);
        }
        match rate {
            Some(r) => {
                if r.num == 0 || r.denom == 0 {
                    return Err(NdArrayFormatError::InvalidRate);
                }
            },
            None => {},
        }
        if shape.len() == 0 {
            return Err(NdArrayFormatError::EmptyShape);
        }
        let ghost dims = shape@;
        let mut element_count: usize = 1;
        let mut axis: usize = 0;
        assert(dims.take(0) =~= Seq::<u32>::empty());
        while axis < shape.len()
            invariant
                dims == shape@,
                dims.len() > 0,
                spec_element_size(element_type) == Some(element_size),
                supported_layout(layout),
                !(rate matches Some(r) && !fraction_positive(r)),
                0 <= axis <= dims.len(),
                element_count == shape_product(dims.take(axis as int)),
                shape_error_from(dims, 0, 1) == shape_error_from(
                    dims,
                    axis as int,
                    element_count as int,
                ),
            decreases dims.len() - axis,
        {
            let dimension = shape[axis];
            proof {
                lemma_shape_product_step(dims, axis as int);
            }
            if dimension == 0 {
                assert(shape_error_from(dims, axis as int, element_count as int) == Some(
                    NdArrayFormatError::ZeroDimension { axis },
                ));
                return Err(NdArrayFormatError::ZeroDimension { axis });
            }
            if dimension > MAX_DIMENSION {
                assert(shape_error_from(dims, axis as int, element_count as int) == Some(
                    NdArrayFormatError::DimensionTooLarge { axis },
                ));
                return Err(NdArrayFormatError::DimensionTooLarge { axis });
            }
            element_count = match element_count.checked_mul(dimension as usize) {
                Some(count) => count,
                None => return Err(NdArrayFormatError::ElementCountOverflow),
            };
            axis = axis + 1;
        }
        assert(dims.take(axis as int) =~= dims);
        if element_count.checked_mul(element_size).is_none() {
            return Err(NdArrayFormatError::ByteCountOverflow);
        }
        Ok(NdArrayFormat { element_type, shape, layout, rate })
    }

    pub fn element_type(&self) -> (r: ElementType)
        ensures
            r == self@.element_type,
    {
        self.element_type
    }

    pub fn shape(&self) -> (r: &[u32])
        ensures
            r@ == self@.shape,
    {
        self.shape.as_slice()
    }

    pub fn layout(&self) -> (r: NdArrayLayout)
        ensures
            r == self@.layout,
    {
        self.layout
    }

    pub fn rate(&self) -> (r: Option<Fraction>)
        ensures
            r == self@.rate,
    {
        self.rate
    }

    /// Number of elements spanned by the shape.
    pub fn element_count(&self) -> (r: usize)
        ensures
            r == shape_product(self@.shape),
    {
        proof {
            use_type_invariant(self);
        }
        let ghost dims = self.shape@;
        let mut count: usize = 1;
        let mut axis: usize = 0;
        assert(dims.take(0) =~= Seq::<u32>::empty());
        while axis < self.shape.len()
            invariant
                dims == self.shape@,
                ndarray_valid(self@),
                0 <= axis <= dims.len(),
                count == shape_product(dims.take(axis as int)),
                shape_error_from(dims, 0, 1) == shape_error_from(dims, axis as int, count as int),
            decreases dims.len() - axis,
        {
            proof {
                lemma_shape_product_step(dims, axis as int);
            }
            count = count * (self.shape[axis] as usize);
            axis = axis + 1;
        }
        assert(dims.take(axis as int) =~= dims);
        count
    }

    /// Number of bytes spanned by the packed elements.
    pub fn byte_count(&self) -> (r: usize)
        ensures
            r == shape_product(self@.shape) * spec_element_size(self@.element_type).unwrap(),
    {
        proof {
            use_type_invariant(self);
        }
        let count = self.element_count();
        let size = match self.element_type.size() {
            Some(size) => size,
            None => 0,
        };
        count * size
    }
}

/// Whether `property` has key `key`, no flags and the identifier value `raw`.
pub open spec fn id_property(property: Property, key: FormatProperties, raw: u32) -> bool {
    property.key == key.spec_raw() && property.flags == PropertyFlags(0) && is_id_value(
        property.value,
        raw,
    )
}

/// Dimensions as the signed integers of a SPA `Int` array.
pub open spec fn shape_as_ints(shape: Seq<u32>) -> Seq<i32> {
    shape.map_values(|dimension: u32| dimension as i32)
}

/// Whether `property` carries `shape` as an `Int` array under the shape key.
pub open spec fn shape_property(property: Property, shape: Seq<u32>) -> bool {
    &&& property.key == FormatProperties::NdArrayShape.spec_raw()
    &&& property.flags == PropertyFlags(0)
    &&& property.value matches Value::ValueArray(ValueArray::Int(dims)) && dims@ == shape_as_ints(
        shape,
    )
}

/// The native SPA properties that describe `format`, in order: media type,
/// media subtype, element type, shape, layout and, when present, rate.
pub open spec fn format_properties(properties: Seq<Property>, format: NdArraySpec) -> bool {
    &&& properties.len() == if format.rate is Some {
        6int
    } else {
        5int
    }
    &&& id_property(
        properties[0],
        FormatProperties::MediaType,
        MediaType::Application.spec_raw(),
    )
    &&& id_property(
        properties[1],
        FormatProperties::MediaSubtype,
        MediaSubtype::NdArray.spec_raw(),
    )
    &&& id_property(
        properties[2],
        FormatProperties::NdArrayElementType,
        format.element_type.spec_raw(),
    )
    &&& shape_property(properties[3], format.shape)
    &&& id_property(properties[4], FormatProperties::NdArrayLayout, format.layout.spec_raw())
    &&& format.rate matches Some(rate) ==> properties[5] == Property {
        key: FormatProperties::NdArrayRate.spec_raw(),
        flags: PropertyFlags(0),
        value: Value::Fraction(rate),
    }
}

fn shape_to_ints(shape: &Vec<u32>) -> (r: Vec<i32>)
    requires
        forall|i: int| 0 <= i < shape@.len() ==> shape@[i] <= MAX_DIMENSION,
    ensures
        r@ == shape_as_ints(shape@),
{
    let mut dims: Vec<i32> = Vec::new();
    let mut axis: usize = 0;
    while axis < shape.len()
        invariant
            0 <= axis <= shape@.len(),
            dims@ == shape_as_ints(shape@.take(axis as int)),
            forall|i: int| 0 <= i < shape@.len() ==> shape@[i] <= MAX_DIMENSION,
        decreases shape@.len() - axis,
    {
        let dimension: u32 = shape[axis];
        dims.push(dimension as i32);
        assert(shape_as_ints(shape@.take(axis + 1)) =~= shape_as_ints(shape@.take(axis as int)).push(
            dimension as i32,
        ));
        axis = axis + 1;
    }
    assert(shape@.take(axis as int) =~= shape@);
    dims
}

proof fn lemma_shape_error_free_dimensions(shape: Seq<u32>, axis: int, count: int)
    requires
        0 <= axis <= shape.len(),
        count >= 0,
        shape_error_from(shape, axis, count) is None,
    ensures
        forall|i: int| axis <= i < shape.len() ==> 0 < #[trigger] shape[i] <= MAX_DIMENSION,
    decreases shape.len() - axis,
{
    if axis < shape.len() {
        let d = shape[axis] as int;
        assert(count * d >= 0) by (nonlinear_arith)
            requires
                count >= 0,
                d >= 0,
        ;
        lemma_shape_error_free_dimensions(shape, axis + 1, count * d);
    }
}

/// Every axis of a valid format spans between one and `MAX_DIMENSION` elements.
pub proof fn lemma_valid_dimensions(format: NdArraySpec)
    requires
        ndarray_valid(format),
    ensures
        forall|i: int| 0 <= i < format.shape.len() ==> 0 < #[trigger] format.shape[i] <= MAX_DIMENSION,
{
    lemma_shape_error_free_dimensions(format.shape, 0, 1);
}

/// What a valid format guarantees: its element type has a packed size, its
/// storage order is row- or column-major, a rate has a nonzero numerator
/// and denominator, and it has at least one axis, each spanning between one
/// and `MAX_DIMENSION` elements.
pub proof fn lemma_valid_format(format: NdArraySpec)
    requires
        ndarray_valid(format),
    ensures
        spec_element_size(format.element_type) is Some,
        format.layout == NdArrayLayout::RowMajor || format.layout == NdArrayLayout::ColumnMajor,
        format.rate is Some ==> format.rate->Some_0.num != 0 && format.rate->Some_0.denom != 0,
        format.shape.len() > 0,
        forall|i: int| 0 <= i < format.shape.len() ==> 0 < #[trigger] format.shape[i] <= MAX_DIMENSION,
{
    lemma_valid_dimensions(format);
}

impl NdArrayFormat {
    /// Build the native SPA properties for this format.
    ///
    /// Application-specific semantic properties can be appended to the result.
    pub fn properties(&self) -> (r: Vec<Property>)
        ensures
            format_properties(r@, self@),
    {
        proof {
            use_type_invariant(self);
            lemma_valid_dimensions(self@);
        }
        let mut properties: Vec<Property> = Vec::new();
        properties.push(
            Property::new(
                FormatProperties::MediaType.as_raw(),
                Value::Id(Id(MediaType::Application.as_raw())),
            ),
        );
        properties.push(
            Property::new(
                FormatProperties::MediaSubtype.as_raw(),
                Value::Id(Id(MediaSubtype::NdArray.as_raw())),
            ),
        );
        properties.push(
            Property::new(
                FormatProperties::NdArrayElementType.as_raw(),
                Value::Id(Id(self.element_type.as_raw())),
            ),
        );
        let dims = shape_to_ints(&self.shape);
        properties.push(
            Property::new(
                FormatProperties::NdArrayShape.as_raw(),
                Value::ValueArray(ValueArray::Int(dims)),
            ),
        );
        properties.push(
            Property::new(
                FormatProperties::NdArrayLayout.as_raw(),
                Value::Id(Id(self.layout.as_raw())),
            ),
        );
        match self.rate {
            Some(rate) => {
                properties.push(
                    Property::new(FormatProperties::NdArrayRate.as_raw(), Value::Fraction(rate)),
                );
            },
            None => {},
        }
        properties
    }
}

/// Number of properties in `properties` with key `key`.
pub open spec fn key_count(properties: Seq<Property>, key: u32) -> nat
    decreases properties.len(),
{
    if properties.len() == 0 {
        0
    } else {
        key_count(properties.drop_last(), key) + if properties.last().key == key {
            1nat
        } else {
            0nat
        }
    }
}

/// Value of the last property in `properties` with key `key`.
pub open spec fn last_value(properties: Seq<Property>, key: u32) -> Option<Value>
    decreases properties.len(),
{
    if properties.len() == 0 {
        None
    } else if properties.last().key == key {
        Some(properties.last().value)
    } else {
        last_value(properties.drop_last(), key)
    }
}

/// Looking up `key`: a duplicate is an error, and so is an absent required key.
pub open spec fn lookup(properties: Seq<Property>, key: FormatProperties, required: bool) -> Result<
    Option<Value>,
    NdArrayFormatError,
> {
    let count = key_count(properties, key.spec_raw());
    if count >= 2 {
        Err(NdArrayFormatError::DuplicateProperty(key))
    } else if count == 0 {
        if required {
            Err(NdArrayFormatError::MissingProperty(key))
        } else {
            Ok(None)
        }
    } else {
        Ok(last_value(properties, key.spec_raw()))
    }
}

/// The identifier stored under the required key `key`.
pub open spec fn id_lookup(properties: Seq<Property>, key: FormatProperties) -> Result<
    u32,
    NdArrayFormatError,
> {
    match lookup(properties, key, true) {
        Err(error) => Err(error),
        Ok(Some(Value::Id(id))) => Ok(id.0),
        Ok(_) => Err(NdArrayFormatError::InvalidProperty(key)),
    }
}

/// Error for a required key that must hold exactly the identifier `raw`.
pub open spec fn fixed_id_error(properties: Seq<Property>, key: FormatProperties, raw: u32) -> Option<
    NdArrayFormatError,
> {
    match id_lookup(properties, key) {
        Err(error) => Some(error),
        Ok(found) => if found == raw {
            None
        } else {
            Some(NdArrayFormatError::InvalidProperty(key))
        },
    }
}

/// Dimensions carried by a shape array, when none is negative.
pub open spec fn shape_lookup(properties: Seq<Property>) -> Result<Seq<u32>, NdArrayFormatError> {
    match lookup(properties, FormatProperties::NdArrayShape, true) {
        Err(error) => Err(error),
        Ok(Some(Value::ValueArray(ValueArray::Int(dims)))) => if forall|i: int|
            0 <= i < dims@.len() ==> #[trigger] dims@[i] >= 0 {
            Ok(dims@.map_values(|dimension: i32| dimension as u32))
        } else {
            Err(NdArrayFormatError::InvalidProperty(FormatProperties::NdArrayShape))
        },
        Ok(_) => Err(NdArrayFormatError::InvalidProperty(FormatProperties::NdArrayShape)),
    }
}

/// The optional rate.
pub open spec fn rate_lookup(properties: Seq<Property>) -> Result<
    Option<Fraction>,
    NdArrayFormatError,
> {
    match lookup(properties, FormatProperties::NdArrayRate, false) {
        Err(error) => Err(error),
        Ok(Some(Value::Fraction(rate))) => Ok(Some(rate)),
        Ok(Some(_)) => Err(NdArrayFormatError::InvalidProperty(FormatProperties::NdArrayRate)),
        Ok(None) => Ok(None),
    }
}

/// The format described by the components, as [`NdArrayFormat::new`] judges it.
pub open spec fn format_from_raw(
    element_raw: u32,
    shape: Seq<u32>,
    layout_raw: u32,
    rate: Option<Fraction>,
) -> Result<NdArraySpec, NdArrayFormatError> {
    let element_type = ElementType::spec_from_raw(element_raw);
    let layout = NdArrayLayout::spec_from_raw(layout_raw);
    match ndarray_error(element_type, shape, layout, rate) {
        Some(error) => Err(error),
        None => Ok(NdArraySpec { element_type, shape, layout, rate }),
    }
}

/// The fixed format described by `properties`; other keys are ignored.
pub open spec fn spec_from_properties(properties: Seq<Property>) -> Result<
    NdArraySpec,
    NdArrayFormatError,
> {
    if fixed_id_error(properties, FormatProperties::MediaType, MediaType::Application.spec_raw())
        is Some {
        Err(
            fixed_id_error(
                properties,
                FormatProperties::MediaType,
                MediaType::Application.spec_raw(),
            ).unwrap(),
        )
    } else if fixed_id_error(
        properties,
        FormatProperties::MediaSubtype,
        MediaSubtype::NdArray.spec_raw(),
    ) is Some {
        Err(
            fixed_id_error(
                properties,
                FormatProperties::MediaSubtype,
                MediaSubtype::NdArray.spec_raw(),
            ).unwrap(),
        )
    } else {
        match id_lookup(properties, FormatProperties::NdArrayElementType) {
            Err(error) => Err(error),
            Ok(element_raw) => match shape_lookup(properties) {
                Err(error) => Err(error),
                Ok(shape) => match id_lookup(properties, FormatProperties::NdArrayLayout) {
                    Err(error) => Err(error),
                    Ok(layout_raw) => match rate_lookup(properties) {
                        Err(error) => Err(error),
                        Ok(rate) => format_from_raw(element_raw, shape, layout_raw, rate),
                    },
                },
            },
        }
    }
}

proof fn lemma_key_count_prefix(properties: Seq<Property>, key: u32, n: int)
    requires
        0 <= n <= properties.len(),
    ensures
        key_count(properties.take(n), key) <= key_count(properties, key),
    decreases properties.len(),
{
    if n < properties.len() {
        assert(properties.drop_last().take(n) =~= properties.take(n));
        lemma_key_count_prefix(properties.drop_last(), key, n);
    } else {
        assert(properties.take(n) =~= properties);
    }
}

fn property_value<'a>(properties: &'a [Property], key: FormatProperties, required: bool) -> (r:
    Result<Option<&'a Value>, NdArrayFormatError>)
    ensures
        match r {
            Ok(Some(value)) => lookup(properties@, key, required) == Ok::<
                Option<Value>,
                NdArrayFormatError,
            >(Some(*value)),
            Ok(None) => lookup(properties@, key, required) == Ok::<
                Option<Value>,
                NdArrayFormatError,
            >(None),
            Err(error) => lookup(properties@, key, required) == Err::<
                Option<Value>,
                NdArrayFormatError,
            >(error),
        },
{
    let raw = key.as_raw();
    let mut found: Option<&'a Value> = None;
    let mut index: usize = 0;
    assert(properties@.take(0) =~= Seq::<Property>::empty());
    while index < properties.len()
        invariant
            raw == key.spec_raw(),
            0 <= index <= properties@.len(),
            key_count(properties@.take(index as int), raw) == if found is Some {
                1nat
            } else {
                0nat
            },
            match found {
                Some(value) => last_value(properties@.take(index as int), raw) == Some(*value),
                None => last_value(properties@.take(index as int), raw) is None,
            },
        decreases properties@.len() - index,
    {
        let ghost prefix = properties@.take(index as int);
        assert(properties@.take(index + 1).drop_last() =~= prefix);
        if properties[index].key == raw {
            if found.is_some() {
                proof {
                    lemma_key_count_prefix(properties@, raw, index + 1);
                }
                return Err(NdArrayFormatError::DuplicateProperty(key));
            }
            found = Some(&properties[index].value);
        }
        index = index + 1;
    }
    assert(properties@.take(index as int) =~= properties@);
    if required && found.is_none() {
        return Err(NdArrayFormatError::MissingProperty(key));
    }
    Ok(found)
}

fn required_id(properties: &[Property], key: FormatProperties) -> (r: Result<u32, NdArrayFormatError>)
    ensures
        r == id_lookup(properties@, key),
{
    match property_value(properties, key, true)? {
        Some(Value::Id(id)) => Ok(id.0),
        _ => Err(NdArrayFormatError::InvalidProperty(key)),
    }
}

fn fixed_id(properties: &[Property], key: FormatProperties, raw: u32) -> (r: Result<
    (),
    NdArrayFormatError,
>)
    ensures
        match r {
            Ok(()) => fixed_id_error(properties@, key, raw) is None,
            Err(error) => fixed_id_error(properties@, key, raw) == Some(error),
        },
{
    let found = required_id(properties, key)?;
    if found == raw {
        Ok(())
    } else {
        Err(NdArrayFormatError::InvalidProperty(key))
    }
}

fn required_shape(properties: &[Property]) -> (r: Result<Vec<u32>, NdArrayFormatError>)
    ensures
        match r {
            Ok(shape) => shape_lookup(properties@) == Ok::<Seq<u32>, NdArrayFormatError>(shape@),
            Err(error) => shape_lookup(properties@) == Err::<Seq<u32>, NdArrayFormatError>(error),
        },
{
    let value = property_value(properties, FormatProperties::NdArrayShape, true)?;
    let dims = match value {
        Some(Value::ValueArray(ValueArray::Int(dims))) => dims,
        _ => return Err(NdArrayFormatError::InvalidProperty(FormatProperties::NdArrayShape)),
    };
    assert(lookup(properties@, FormatProperties::NdArrayShape, true) == Ok::<
        Option<Value>,
        NdArrayFormatError,
    >(Some(Value::ValueArray(ValueArray::Int(*dims)))));
    let mut shape: Vec<u32> = Vec::new();
    let mut axis: usize = 0;
    while axis < dims.len()
        invariant
            0 <= axis <= dims@.len(),
            lookup(properties@, FormatProperties::NdArrayShape, true) == Ok::<
                Option<Value>,
                NdArrayFormatError,
            >(Some(Value::ValueArray(ValueArray::Int(*dims)))),
            forall|i: int| 0 <= i < axis ==> #[trigger] dims@[i] >= 0,
            shape@ =~= dims@.take(axis as int).map_values(|dimension: i32| dimension as u32),
        decreases dims@.len() - axis,
    {
        let dimension: i32 = dims[axis];
        if dimension < 0 {
            assert(dims@[axis as int] < 0);
            return Err(NdArrayFormatError::InvalidProperty(FormatProperties::NdArrayShape));
        }
        shape.push(dimension as u32);
        assert(dims@.take(axis + 1).map_values(|dimension: i32| dimension as u32) =~= dims@.take(
            axis as int,
        ).map_values(|dimension: i32| dimension as u32).push(dimension as u32));
        axis = axis + 1;
    }
    assert(dims@.take(axis as int) =~= dims@);
    Ok(shape)
}

fn optional_rate(properties: &[Property]) -> (r: Result<Option<Fraction>, NdArrayFormatError>)
    ensures
        r == rate_lookup(properties@),
{
    match property_value(properties, FormatProperties::NdArrayRate, false)? {
        Some(Value::Fraction(rate)) => Ok(Some(*rate)),
        Some(_) => Err(NdArrayFormatError::InvalidProperty(FormatProperties::NdArrayRate)),
        None => Ok(None),
    }
}

impl NdArrayFormat {
    /// Parse a fixed native ndarray format while ignoring application properties.
    pub fn from_properties(properties: &[Property]) -> (r: Result<NdArrayFormat, NdArrayFormatError>)
        ensures
            match r {
                Ok(format) => spec_from_properties(properties@) == Ok::<
                    NdArraySpec,
                    NdArrayFormatError,
                >(format@),
                Err(error) => spec_from_properties(properties@) == Err::<
                    NdArraySpec,
                    NdArrayFormatError,
                >(error),
            },
    {
        fixed_id(properties, FormatProperties::MediaType, MediaType::Application.as_raw())?;
        fixed_id(properties, FormatProperties::MediaSubtype, MediaSubtype::NdArray.as_raw())?;
        let element_raw = required_id(properties, FormatProperties::NdArrayElementType)?;
        let shape = required_shape(properties)?;
        let layout_raw = required_id(properties, FormatProperties::NdArrayLayout)?;
        let rate = optional_rate(properties)?;
        NdArrayFormat::new(
            ElementType::from_raw(element_raw),
            shape,
            NdArrayLayout::from_raw(layout_raw),
            rate,
        )
    }
}

/// Alternatives for the default rate of an enumerated ndarray format.
///
/// The default itself comes from [`NdArrayFormat::rate`]. Enum alternatives
/// do not need to repeat it; the property encoding adds the repetition that
/// SPA's preference-plus-admissible-list representation requires.
#[derive(Clone, Debug, PartialEq, Eq)]
pub enum NdArrayRateChoice {
    /// Discrete additional rates.
    Enum(Vec<Fraction>),
    /// Inclusive rate range.
    Range { min: Fraction, max: Fraction },
    /// Inclusive rate range and positive step.
    Step { min: Fraction, max: Fraction, step: Fraction },
}

/// Whether `left` is a strictly larger rational than `right`, for fractions
/// with nonzero denominators.
pub open spec fn fraction_greater(left: Fraction, right: Fraction) -> bool {
    left.num * right.denom > right.num * left.denom
}

/// Rate ranges are inclusive: for a positive default rate, a range or step
/// range with positive bounds accepts exactly the defaults from its minimum
/// to its maximum, the bounds included (rationals compared by cross
/// multiplication), and a step range also needs a positive step.
pub proof fn lemma_rate_ranges_are_inclusive(default: Fraction, min: Fraction, max: Fraction, step: Fraction)
    requires
        min.num > 0 && min.denom > 0,
        max.num > 0 && max.denom > 0,
    ensures
        rate_choice_error(Some(default), NdArrayRateChoice::Range { min, max }) is None <==> (
        min.num * default.denom <= default.num * min.denom && default.num * max.denom <= max.num
            * default.denom),
        rate_choice_error(Some(default), NdArrayRateChoice::Step { min, max, step }) is None <==> (
        min.num * default.denom <= default.num * min.denom && default.num * max.denom <= max.num
            * default.denom && step.num > 0 && step.denom > 0),
        rate_choice_error(Some(default), NdArrayRateChoice::Range { min, max }) is Some ==> rate_choice_error(
            Some(default),
            NdArrayRateChoice::Range { min, max },
        ) == Some(NdArrayFormatError::InvalidRateChoice),
{
}

/// The error that validating `choice` against the default rate reports.
pub open spec fn rate_choice_error(default: Option<Fraction>, choice: NdArrayRateChoice) -> Option<
    NdArrayFormatError,
> {
    match default {
        None => Some(NdArrayFormatError::MissingRateForChoice),
        Some(default) => match choice {
            NdArrayRateChoice::Enum(alternatives) => if alternatives@.len() == 0 || exists|i: int|
                0 <= i < alternatives@.len() && !fraction_positive(#[trigger] alternatives@[i]) {
                Some(NdArrayFormatError::InvalidRateChoice)
            } else {
                None
            },
            NdArrayRateChoice::Range { min, max } => if !fraction_positive(min) || !fraction_positive(
                max,
            ) || fraction_greater(min, default) || fraction_greater(default, max) {
                Some(NdArrayFormatError::InvalidRateChoice)
            } else {
                None
            },
            NdArrayRateChoice::Step { min, max, step } => if !fraction_positive(min)
                || !fraction_positive(max) || fraction_greater(min, default) || fraction_greater(
                default,
                max,
            ) || !fraction_positive(step) {
                Some(NdArrayFormatError::InvalidRateChoice)
            } else {
                None
            },
        },
    }
}

/// Whether both terms of `value` are nonzero.
pub fn fraction_is_positive(value: Fraction) -> (r: bool)
    ensures
        r == fraction_positive(value),
{
    value.num != 0 && value.denom != 0
}

fn cross_products(left: Fraction, right: Fraction) -> (r: (u64, u64))
    ensures
        r.0 == left.num * right.denom,
        r.1 == right.num * left.denom,
{
    let l: u64 = left.num as u64;
    let r: u64 = right.num as u64;
    let ld: u64 = left.denom as u64;
    let rd: u64 = right.denom as u64;
    assert(l * rd <= 0xffff_ffff * 0xffff_ffff) by (nonlinear_arith)
        requires
            l <= 0xffff_ffff,
            rd <= 0xffff_ffff,
    ;
    assert(r * ld <= 0xffff_ffff * 0xffff_ffff) by (nonlinear_arith)
        requires
            r <= 0xffff_ffff,
            ld <= 0xffff_ffff,
    ;
    (l * rd, r * ld)
}

/// Compares two fractions with nonzero denominators as rationals.
pub fn fraction_cmp(left: Fraction, right: Fraction) -> (r: core::cmp::Ordering)
    ensures
        (r == core::cmp::Ordering::Greater) == fraction_greater(left, right),
        (r == core::cmp::Ordering::Less) == fraction_greater(right, left),
        (r == core::cmp::Ordering::Equal) == (left.num * right.denom == right.num * left.denom),
{
    let (left_product, right_product) = cross_products(left, right);
    if left_product < right_product {
        core::cmp::Ordering::Less
    } else if left_product == right_product {
        core::cmp::Ordering::Equal
    } else {
        core::cmp::Ordering::Greater
    }
}

fn all_rates_positive(rates: &Vec<Fraction>) -> (r: bool)
    ensures
        r == forall|i: int| 0 <= i < rates@.len() ==> fraction_positive(#[trigger] rates@[i]),
{
    let mut index: usize = 0;
    while index < rates.len()
        invariant
            0 <= index <= rates@.len(),
            forall|i: int| 0 <= i < index ==> fraction_positive(#[trigger] rates@[i]),
        decreases rates@.len() - index,
    {
        if !fraction_is_positive(rates[index]) {
            assert(!fraction_positive(rates@[index as int]));
            return false;
        }
        index = index + 1;
    }
    true
}

/// Validates `choice` against the default rate of an enumerated format.
pub fn validate_rate_choice(default: Option<Fraction>, choice: &NdArrayRateChoice) -> (r: Result<
    (),
    NdArrayFormatError,
>)
    ensures
        match r {
            Ok(()) => rate_choice_error(default, *choice) is None,
            Err(error) => rate_choice_error(default, *choice) == Some(error),
        },
{
    let preferred = match default {
        Some(preferred) => preferred,
        None => return Err(NdArrayFormatError::MissingRateForChoice),
    };
    match choice {
        NdArrayRateChoice::Enum(alternatives) => {
            if alternatives.len() == 0 || !all_rates_positive(alternatives) {
                return Err(NdArrayFormatError::InvalidRateChoice);
            }
            Ok(())
        },
        NdArrayRateChoice::Range { min, max } => {
            if !fraction_is_positive(*min) || !fraction_is_positive(*max) || matches!(
                fraction_cmp(*min, preferred),
                core::cmp::Ordering::Greater
            ) || matches!(fraction_cmp(preferred, *max), core::cmp::Ordering::Greater) {
                return Err(NdArrayFormatError::InvalidRateChoice);
            }
            Ok(())
        },
        NdArrayRateChoice::Step { min, max, step } => {
            if !fraction_is_positive(*min) || !fraction_is_positive(*max) || matches!(
                fraction_cmp(*min, preferred),
                core::cmp::Ordering::Greater
            ) || matches!(fraction_cmp(preferred, *max), core::cmp::Ordering::Greater) {
                return Err(NdArrayFormatError::InvalidRateChoice);
            }
            if !fraction_is_positive(*step) {
                return Err(NdArrayFormatError::InvalidRateChoice);
            }
            Ok(())
        },
    }
}

/// Abstract content of an [`NdArrayEnumFormat`].
pub ghost struct NdArrayEnumSpec {
    pub default: NdArraySpec,
    pub element_types: Seq<ElementType>,
    pub layouts: Seq<NdArrayLayout>,
    pub rate_choice: Option<NdArrayRateChoice>,
}

/// Whether every alternative element type has a packed size.
pub open spec fn element_alternatives_supported(alternatives: Seq<ElementType>) -> bool {
    forall|i: int| 0 <= i < alternatives.len() ==> spec_element_size(#[trigger] alternatives[i]) is Some
}

/// Whether every alternative layout is a supported storage order.
pub open spec fn layout_alternatives_supported(alternatives: Seq<NdArrayLayout>) -> bool {
    forall|i: int| 0 <= i < alternatives.len() ==> supported_layout(#[trigger] alternatives[i])
}

/// One exact ndarray shape with negotiable scalar, layout, and rate values.
///
/// Endpoints supporting more than one shape expose one `NdArrayEnumFormat`
/// per shape. This keeps shape negotiation unambiguous and compatible with
/// the ordinary SPA POD filter.
#[derive(Debug, PartialEq, Eq)]
pub struct NdArrayEnumFormat {
    default: NdArrayFormat,
    element_type_alternatives: Vec<ElementType>,
    layout_alternatives: Vec<NdArrayLayout>,
    rate_choice: Option<NdArrayRateChoice>,
}

impl View for NdArrayEnumFormat {
    type V = NdArrayEnumSpec;

    closed spec fn view(&self) -> NdArrayEnumSpec {
        NdArrayEnumSpec {
            default: self.default@,
            element_types: self.element_type_alternatives@,
            layouts: self.layout_alternatives@,
            rate_choice: self.rate_choice,
        }
    }
}

/// Whether `alternatives` lists the default identifier followed by the
/// additional identifiers.
pub open spec fn enum_ids(default: u32, additional: Seq<u32>, alternatives: Seq<Id>) -> bool {
    &&& alternatives.len() == additional.len() + 1
    &&& alternatives[0] == Id(default)
    &&& forall|i: int| 0 <= i < additional.len() ==> alternatives[i + 1] == Id(#[trigger] additional[i])
}

/// Whether `property` offers an identifier choice under `key` whose default is
/// `default` and whose admissible list is the default followed by `additional`.
pub open spec fn id_choice_property(
    property: Property,
    key: FormatProperties,
    default: u32,
    additional: Seq<u32>,
) -> bool {
    &&& property.key == key.spec_raw()
    &&& property.flags == PropertyFlags(0)
    &&& property.value matches Value::Choice(
        ChoiceValue::Id(Choice(flags, ChoiceEnum::Enum { default: chosen, alternatives })),
    ) && flags == ChoiceFlags(0) && chosen == Id(default) && enum_ids(
        default,
        additional,
        alternatives@,
    )
}

/// Whether `choice` encodes the rate choice `rate_choice` around `default`.
pub open spec fn rate_choice_encoding(
    choice: ChoiceEnum<Fraction>,
    default: Fraction,
    rate_choice: NdArrayRateChoice,
) -> bool {
    match rate_choice {
        NdArrayRateChoice::Enum(additional) => choice matches ChoiceEnum::Enum {
            default: chosen,
            alternatives,
        } && chosen == default && alternatives@ == seq![default] + additional@,
        NdArrayRateChoice::Range { min, max } => choice == ChoiceEnum::Range { default, min, max },
        NdArrayRateChoice::Step { min, max, step } => choice == ChoiceEnum::Step {
            default,
            min,
            max,
            step,
        },
    }
}

/// The `SPA_PARAM_EnumFormat` properties of `format`.
pub open spec fn enum_format_properties(properties: Seq<Property>, format: NdArrayEnumSpec) -> bool {
    let default = format.default;
    &&& properties.len() == if default.rate is Some {
        6int
    } else {
        5int
    }
    &&& id_property(
        properties[0],
        FormatProperties::MediaType,
        MediaType::Application.spec_raw(),
    )
    &&& id_property(
        properties[1],
        FormatProperties::MediaSubtype,
        MediaSubtype::NdArray.spec_raw(),
    )
    &&& if format.element_types.len() == 0 {
        id_property(
            properties[2],
            FormatProperties::NdArrayElementType,
            default.element_type.spec_raw(),
        )
    } else {
        id_choice_property(
            properties[2],
            FormatProperties::NdArrayElementType,
            default.element_type.spec_raw(),
            format.element_types.map_values(|e: ElementType| e.spec_raw()),
        )
    }
    &&& shape_property(properties[3], default.shape)
    &&& if format.layouts.len() == 0 {
        id_property(properties[4], FormatProperties::NdArrayLayout, default.layout.spec_raw())
    } else {
        id_choice_property(
            properties[4],
            FormatProperties::NdArrayLayout,
            default.layout.spec_raw(),
            format.layouts.map_values(|l: NdArrayLayout| l.spec_raw()),
        )
    }
    &&& default.rate matches Some(rate) ==> match format.rate_choice {
        None => properties[5] == Property {
            key: FormatProperties::NdArrayRate.spec_raw(),
            flags: PropertyFlags(0),
            value: Value::Fraction(rate),
        },
        Some(rate_choice) => {
            &&& properties[5].key == FormatProperties::NdArrayRate.spec_raw()
            &&& properties[5].flags == PropertyFlags(0)
            &&& properties[5].value matches Value::Choice(
                ChoiceValue::Fraction(Choice(flags, choice)),
            ) && flags == ChoiceFlags(0) && rate_choice_encoding(choice, rate, rate_choice)
        },
    }
}

fn element_choice(default: ElementType, additional: &Vec<ElementType>) -> (r: Vec<Id>)
    ensures
        enum_ids(
            default.spec_raw(),
            additional@.map_values(|e: ElementType| e.spec_raw()),
            r@,
        ),
{
    let mut alternatives: Vec<Id> = Vec::new();
    alternatives.push(Id(default.as_raw()));
    let mut index: usize = 0;
    while index < additional.len()
        invariant
            0 <= index <= additional@.len(),
            alternatives@.len() == index + 1,
            alternatives@[0] == Id(default.spec_raw()),
            forall|i: int|
                0 <= i < index ==> alternatives@[i + 1] == Id(#[trigger] additional@[i].spec_raw()),
        decreases additional@.len() - index,
    {
        alternatives.push(Id(additional[index].as_raw()));
        index = index + 1;
    }
    alternatives
}

fn layout_choice(default: NdArrayLayout, additional: &Vec<NdArrayLayout>) -> (r: Vec<Id>)
    ensures
        enum_ids(
            default.spec_raw(),
            additional@.map_values(|l: NdArrayLayout| l.spec_raw()),
            r@,
        ),
{
    let mut alternatives: Vec<Id> = Vec::new();
    alternatives.push(Id(default.as_raw()));
    let mut index: usize = 0;
    while index < additional.len()
        invariant
            0 <= index <= additional@.len(),
            alternatives@.len() == index + 1,
            alternatives@[0] == Id(default.spec_raw()),
            forall|i: int|
                0 <= i < index ==> alternatives@[i + 1] == Id(#[trigger] additional@[i].spec_raw()),
        decreases additional@.len() - index,
    {
        alternatives.push(Id(additional[index].as_raw()));
        index = index + 1;
    }
    alternatives
}

fn rate_alternatives(default: Fraction, additional: &Vec<Fraction>) -> (r: Vec<Fraction>)
    ensures
        r@ == seq![default] + additional@,
{
    let mut alternatives: Vec<Fraction> = Vec::new();
    alternatives.push(default);
    let mut index: usize = 0;
    while index < additional.len()
        invariant
            0 <= index <= additional@.len(),
            alternatives@ == seq![default] + additional@.take(index as int),
        decreases additional@.len() - index,
    {
        alternatives.push(additional[index]);
        assert(additional@.take(index + 1) =~= additional@.take(index as int).push(
            additional@[index as int],
        ));
        index = index + 1;
    }
    assert(additional@.take(index as int) =~= additional@);
    alternatives
}

impl NdArrayEnumFormat {
    /// Alternatives are supported, and a rate choice fits the default rate.
    #[verifier::type_invariant]
    pub open spec fn inv(self) -> bool {
        &&& element_alternatives_supported(self@.element_types)
        &&& layout_alternatives_supported(self@.layouts)
        &&& self@.rate_choice matches Some(choice) ==> rate_choice_error(
            self@.default.rate,
            choice,
        ) is None
    }

    /// Start an enumerated format from a validated fixed default.
    pub fn new(default: NdArrayFormat) -> (r: NdArrayEnumFormat)
        ensures
            r@ == (NdArrayEnumSpec {
                default: default@,
                element_types: Seq::empty(),
                layouts: Seq::empty(),
                rate_choice: None,
            }),
    {
        NdArrayEnumFormat {
            default,
            element_type_alternatives: Vec::new(),
            layout_alternatives: Vec::new(),
            rate_choice: None,
        }
    }

    pub fn default(&self) -> (r: &NdArrayFormat)
        ensures
            r@ == self@.default,
    {
        &self.default
    }

    /// Offers additional element types besides the default one.
    pub fn with_element_type_alternatives(self, alternatives: Vec<ElementType>) -> (r: Result<
        NdArrayEnumFormat,
        NdArrayFormatError,
    >)
        ensures
            match r {
                Ok(format) => element_alternatives_supported(alternatives@) && format@ == (
                NdArrayEnumSpec { element_types: alternatives@, ..self@ }),
                Err(error) => exists|index: int|
                    #![trigger alternatives@[index]]
                    0 <= index < alternatives@.len() && spec_element_size(alternatives@[index])
                        is None && element_alternatives_supported(alternatives@.take(index))
                        && error == NdArrayFormatError::UnsupportedElementTypeAlternative {
                        index: index as usize,
                    },
            },
    {
        proof {
            use_type_invariant(&self);
        }
        let mut index: usize = 0;
        while index < alternatives.len()
            invariant
                0 <= index <= alternatives@.len(),
                element_alternatives_supported(alternatives@.take(index as int)),
            decreases alternatives@.len() - index,
        {
            if alternatives[index].size().is_none() {
                return Err(NdArrayFormatError::UnsupportedElementTypeAlternative { index });
            }
            assert(alternatives@.take(index + 1)[index as int] == alternatives@[index as int]);
            index = index + 1;
        }
        assert(alternatives@.take(index as int) =~= alternatives@);
        Ok(
            NdArrayEnumFormat {
                default: self.default,
                element_type_alternatives: alternatives,
                layout_alternatives: self.layout_alternatives,
                rate_choice: self.rate_choice,
            },
        )
    }

    /// Offers additional storage orders besides the default one.
    pub fn with_layout_alternatives(self, alternatives: Vec<NdArrayLayout>) -> (r: Result<
        NdArrayEnumFormat,
        NdArrayFormatError,
    >)
        ensures
            match r {
                Ok(format) => layout_alternatives_supported(alternatives@) && format@ == (
                NdArrayEnumSpec { layouts: alternatives@, ..self@ }),
                Err(error) => exists|index: int|
                    #![trigger alternatives@[index]]
                    0 <= index < alternatives@.len() && !supported_layout(alternatives@[index])
                        && layout_alternatives_supported(alternatives@.take(index)) && error
                        == NdArrayFormatError::UnsupportedLayoutAlternative {
                        index: index as usize,
                    },
            },
    {
        proof {
            use_type_invariant(&self);
        }
        let mut index: usize = 0;
        while index < alternatives.len()
            invariant
                0 <= index <= alternatives@.len(),
                layout_alternatives_supported(alternatives@.take(index as int)),
            decreases alternatives@.len() - index,
        {
            let layout = alternatives[index];
            if layout != NdArrayLayout::RowMajor && layout != NdArrayLayout::ColumnMajor {
                return Err(NdArrayFormatError::UnsupportedLayoutAlternative { index });
            }
            assert(alternatives@.take(index + 1)[index as int] == alternatives@[index as int]);
            index = index + 1;
        }
        assert(alternatives@.take(index as int) =~= alternatives@);
        Ok(
            NdArrayEnumFormat {
                default: self.default,
                element_type_alternatives: self.element_type_alternatives,
                layout_alternatives: alternatives,
                rate_choice: self.rate_choice,
            },
        )
    }

    /// Offers a rate choice around the default rate.
    pub fn with_rate_choice(self, choice: NdArrayRateChoice) -> (r: Result<
        NdArrayEnumFormat,
        NdArrayFormatError,
    >)
        ensures
            match r {
                Ok(format) => rate_choice_error(self@.default.rate, choice) is None && format@ == (
                NdArrayEnumSpec { rate_choice: Some(choice), ..self@ }),
                Err(error) => rate_choice_error(self@.default.rate, choice) == Some(error),
            },
    {
        proof {
            use_type_invariant(&self);
        }
        validate_rate_choice(self.default.rate(), &choice)?;
        Ok(
            NdArrayEnumFormat {
                default: self.default,
                element_type_alternatives: self.element_type_alternatives,
                layout_alternatives: self.layout_alternatives,
                rate_choice: Some(choice),
            },
        )
    }

    /// Build an `SPA_PARAM_EnumFormat` property set.
    pub fn properties(&self) -> (r: Vec<Property>)
        ensures
            enum_format_properties(r@, self@),
    {
        proof {
            use_type_invariant(self);
        }
        let mut properties = self.default.properties();
        let ghost base = properties@;
        if self.element_type_alternatives.len() > 0 {
            let default = self.default.element_type();
            let alternatives = element_choice(default, &self.element_type_alternatives);
            properties.set(
                2,
                Property::new(
                    FormatProperties::NdArrayElementType.as_raw(),
                    Value::Choice(
                        ChoiceValue::Id(
                            Choice(
                                ChoiceFlags::empty(),
                                ChoiceEnum::Enum { default: Id(default.as_raw()), alternatives },
                            ),
                        ),
                    ),
                ),
            );
        }
        if self.layout_alternatives.len() > 0 {
            let default = self.default.layout();
            let alternatives = layout_choice(default, &self.layout_alternatives);
            properties.set(
                4,
                Property::new(
                    FormatProperties::NdArrayLayout.as_raw(),
                    Value::Choice(
                        ChoiceValue::Id(
                            Choice(
                                ChoiceFlags::empty(),
                                ChoiceEnum::Enum { default: Id(default.as_raw()), alternatives },
                            ),
                        ),
                    ),
                ),
            );
        }
        match &self.rate_choice {
            Some(choice) => {
                let default = match self.default.rate() {
                    Some(rate) => rate,
                    None => {
                        assert(false);
                        return properties;
                    },
                };
                let choice = match choice {
                    NdArrayRateChoice::Enum(additional) => ChoiceEnum::Enum {
                        default,
                        alternatives: rate_alternatives(default, additional),
                    },
                    NdArrayRateChoice::Range { min, max } => ChoiceEnum::Range {
                        default,
                        min: *min,
                        max: *max,
                    },
                    NdArrayRateChoice::Step { min, max, step } => ChoiceEnum::Step {
                        default,
                        min: *min,
                        max: *max,
                        step: *step,
                    },
                };
                properties.set(
                    5,
                    Property::new(
                        FormatProperties::NdArrayRate.as_raw(),
                        Value::Choice(ChoiceValue::Fraction(Choice(ChoiceFlags::empty(), choice))),
                    ),
                );
            },
            None => {},
        }
        properties
    }
}

/// The rank-one format that [`VectorFormat::from_properties`] reads.
pub open spec fn spec_vector_from_properties(properties: Seq<Property>) -> Result<
    NdArraySpec,
    NdArrayFormatError,
> {
    match spec_from_properties(properties) {
        Err(error) => Err(error),
        Ok(format) => if format.shape.len() != 1 {
            Err(
                NdArrayFormatError::WrongRank {
                    expected: 1,
                    actual: format.shape.len() as usize,
                },
            )
        } else if format.layout != NdArrayLayout::RowMajor {
            Err(NdArrayFormatError::NonCanonicalVectorLayout)
        } else {
            Ok(format)
        },
    }
}

/// The rank-two format that [`MatrixFormat::from_properties`] reads.
pub open spec fn spec_matrix_from_properties(properties: Seq<Property>) -> Result<
    NdArraySpec,
    NdArrayFormatError,
> {
    match spec_from_properties(properties) {
        Err(error) => Err(error),
        Ok(format) => if format.shape.len() != 2 {
            Err(
                NdArrayFormatError::WrongRank {
                    expected: 2,
                    actual: format.shape.len() as usize,
                },
            )
        } else {
            Ok(format)
        },
    }
}

/// Canonical rank-one ndarray format.
#[derive(Debug, PartialEq, Eq)]
pub struct VectorFormat(NdArrayFormat);

impl View for VectorFormat {
    type V = NdArraySpec;

    closed spec fn view(&self) -> NdArraySpec {
        self.0@
    }
}

impl Clone for VectorFormat {
    fn clone(&self) -> (r: VectorFormat)
        ensures
            r@ == self@,
    {
        proof {
            use_type_invariant(self);
        }
        VectorFormat(self.0.clone())
    }
}

impl VectorFormat {
    /// A vector has one axis and is stored row-major.
    #[verifier::type_invariant]
    pub open spec fn inv(self) -> bool {
        self@.shape.len() == 1 && self@.layout == NdArrayLayout::RowMajor
    }

    pub fn new(element_type: ElementType, length: u32, rate: Option<Fraction>) -> (r: Result<
        VectorFormat,
        NdArrayFormatError,
    >)
        ensures
            match r {
                Ok(format) => format@ == NdArraySpec {
                    element_type,
                    shape: seq![length],
                    layout: NdArrayLayout::RowMajor,
                    rate,
                } && ndarray_error(element_type, seq![length], NdArrayLayout::RowMajor, rate)
                    is None,
                Err(error) => ndarray_error(
                    element_type,
                    seq![length],
                    NdArrayLayout::RowMajor,
                    rate,
                ) == Some(error),
            },
    {
        let mut shape: Vec<u32> = Vec::new();
        shape.push(length);
        assert(shape@ =~= seq![length]);
        let format = NdArrayFormat::new(element_type, shape, NdArrayLayout::RowMajor, rate)?;
        Ok(VectorFormat(format))
    }

    pub fn as_ndarray(&self) -> (r: &NdArrayFormat)
        ensures
            r@ == self@,
    {
        &self.0
    }

    pub fn properties(&self) -> (r: Vec<Property>)
        ensures
            format_properties(r@, self@),
    {
        self.0.properties()
    }

    pub fn enum_format(&self) -> (r: NdArrayEnumFormat)
        ensures
            r@ == (NdArrayEnumSpec {
                default: self@,
                element_types: Seq::empty(),
                layouts: Seq::empty(),
                rate_choice: None,
            }),
    {
        NdArrayEnumFormat::new(self.0.clone())
    }

    /// Parse a fixed native rank-one format.
    pub fn from_properties(properties: &[Property]) -> (r: Result<VectorFormat, NdArrayFormatError>)
        ensures
            match r {
                Ok(format) => spec_vector_from_properties(properties@) == Ok::<
                    NdArraySpec,
                    NdArrayFormatError,
                >(format@),
                Err(error) => spec_vector_from_properties(properties@) == Err::<
                    NdArraySpec,
                    NdArrayFormatError,
                >(error),
            },
    {
        let format = NdArrayFormat::from_properties(properties)?;
        let shape = format.shape();
        if shape.len() != 1 {
            return Err(NdArrayFormatError::WrongRank { expected: 1, actual: shape.len() });
        }
        if format.layout() != NdArrayLayout::RowMajor {
            return Err(NdArrayFormatError::NonCanonicalVectorLayout);
        }
        let length = shape[0];
        proof {
            use_type_invariant(&format);
            assert(format@.shape =~= seq![length]);
        }
        VectorFormat::new(format.element_type(), length, format.rate())
    }
}

/// Rank-two ndarray format with explicit row-major or column-major storage.
#[derive(Debug, PartialEq, Eq)]
pub struct MatrixFormat(NdArrayFormat);

impl View for MatrixFormat {
    type V = NdArraySpec;

    closed spec fn view(&self) -> NdArraySpec {
        self.0@
    }
}

impl Clone for MatrixFormat {
    fn clone(&self) -> (r: MatrixFormat)
        ensures
            r@ == self@,
    {
        proof {
            use_type_invariant(self);
        }
        MatrixFormat(self.0.clone())
    }
}

impl MatrixFormat {
    /// A matrix has two axes.
    #[verifier::type_invariant]
    pub open spec fn inv(self) -> bool {
        self@.shape.len() == 2
    }

    pub fn new(
        element_type: ElementType,
        rows: u32,
        columns: u32,
        layout: NdArrayLayout,
        rate: Option<Fraction>,
    ) -> (r: Result<MatrixFormat, NdArrayFormatError>)
        ensures
            match r {
                Ok(format) => format@ == NdArraySpec {
                    element_type,
                    shape: seq![rows, columns],
                    layout,
                    rate,
                } && ndarray_error(element_type, seq![rows, columns], layout, rate) is None,
                Err(error) => ndarray_error(element_type, seq![rows, columns], layout, rate) == Some(
                    error,
                ),
            },
    {
        let mut shape: Vec<u32> = Vec::new();
        shape.push(rows);
        shape.push(columns);
        assert(shape@ =~= seq![rows, columns]);
        let format = NdArrayFormat::new(element_type, shape, layout, rate)?;
        Ok(MatrixFormat(format))
    }

    pub fn as_ndarray(&self) -> (r: &NdArrayFormat)
        ensures
            r@ == self@,
    {
        &self.0
    }

    pub fn properties(&self) -> (r: Vec<Property>)
        ensures
            format_properties(r@, self@),
    {
        self.0.properties()
    }

    pub fn enum_format(&self) -> (r: NdArrayEnumFormat)
        ensures
            r@ == (NdArrayEnumSpec {
                default: self@,
                element_types: Seq::empty(),
                layouts: Seq::empty(),
                rate_choice: None,
            }),
    {
        NdArrayEnumFormat::new(self.0.clone())
    }

    /// Parse a fixed native rank-two format in either contiguous storage order.
    pub fn from_properties(properties: &[Property]) -> (r: Result<MatrixFormat, NdArrayFormatError>)
        ensures
            match r {
                Ok(format) => spec_matrix_from_properties(properties@) == Ok::<
                    NdArraySpec,
                    NdArrayFormatError,
                >(format@),
                Err(error) => spec_matrix_from_properties(properties@) == Err::<
                    NdArraySpec,
                    NdArrayFormatError,
                >(error),
            },
    {
        let format = NdArrayFormat::from_properties(properties)?;
        let shape = format.shape();
        if shape.len() != 2 {
            return Err(NdArrayFormatError::WrongRank { expected: 2, actual: shape.len() });
        }
        let rows = shape[0];
        let columns = shape[1];
        proof {
            use_type_invariant(&format);
            assert(format@.shape =~= seq![rows, columns]);
        }
        MatrixFormat::new(format.element_type(), rows, columns, format.layout(), format.rate())
    }
}

proof fn lemma_lookup_in_encoding(properties: Seq<Property>, format: NdArraySpec, index: int)
    requires
        format_properties(properties, format),
        0 <= index < properties.len(),
    ensures
        key_count(properties, properties[index].key) == 1,
        last_value(properties, properties[index].key) == Some(properties[index].value),
{
    let n = properties.len();
    let key = properties[index].key;
    let p = properties;
    reveal_with_fuel(key_count, 7);
    reveal_with_fuel(last_value, 7);
    assert(p.drop_last().drop_last().drop_last().drop_last().drop_last() =~= p.take(n - 5));
    if n == 6 {
        assert(p.take(1).drop_last() =~= Seq::<Property>::empty());
    } else {
        assert(p.take(0) =~= Seq::<Property>::empty());
    }
}

/// Reading back the properties of a valid format gives the same format.
pub proof fn lemma_format_properties_round_trip(properties: Seq<Property>, format: NdArraySpec)
    requires
        ndarray_valid(format),
        format_properties(properties, format),
    ensures
        spec_from_properties(properties) == Ok::<NdArraySpec, NdArrayFormatError>(format),
{
    lemma_valid_dimensions(format);
    lemma_lookup_in_encoding(properties, format, 0);
    lemma_lookup_in_encoding(properties, format, 1);
    lemma_lookup_in_encoding(properties, format, 2);
    lemma_lookup_in_encoding(properties, format, 3);
    lemma_lookup_in_encoding(properties, format, 4);
    if format.rate is Some {
        lemma_lookup_in_encoding(properties, format, 5);
    } else {
        reveal_with_fuel(key_count, 6);
        let rate_key = FormatProperties::NdArrayRate.spec_raw();
        let p = properties;
        assert(p.drop_last().drop_last().drop_last().drop_last().drop_last() =~= Seq::<
            Property,
        >::empty());
        assert(key_count(p, rate_key) == 0);
    }
    let dims_value = properties[3].value;
    if let Value::ValueArray(ValueArray::Int(dims)) = dims_value {
        assert forall|i: int| 0 <= i < dims@.len() implies #[trigger] dims@[i] >= 0 by {
            assert(format.shape[i] <= MAX_DIMENSION);
        }
        assert(dims@.map_values(|dimension: i32| dimension as u32) =~= format.shape);
    }
    lemma_element_type_raw_round_trip(format.element_type, 0);
    lemma_nd_array_layout_raw_round_trip(format.layout, 0);
}

/// The properties of `properties` that have key `key`, counted with
/// multiplicity and without order.
pub open spec fn key_bag(properties: Seq<Property>, key: u32) -> Multiset<Property> {
    properties.to_multiset().filter(|property: Property| property.key == key)
}

/// The key bag counts the properties with `key`, and when there is one,
/// it holds only the property whose value is the last value of `key`.
proof fn lemma_key_bag(properties: Seq<Property>, key: u32)
    ensures
        key_bag(properties, key).len() == key_count(properties, key),
        key_count(properties, key) == 1 ==> forall|property: Property|
            #[trigger] key_bag(properties, key).count(property) > 0 ==> last_value(properties, key)
                == Some(property.value),
    decreases properties.len(),
{
    broadcast use vstd::multiset::group_multiset_axioms;
    broadcast use vstd::seq_lib::to_multiset_build;

    if properties.len() == 0 {
        vstd::seq_lib::to_multiset_len(properties);
        vstd::multiset::lemma_multiset_empty_len(properties.to_multiset());
        assert(key_bag(properties, key) =~= Multiset::<Property>::empty());
    } else {
        let rest = properties.drop_last();
        let last = properties.last();
        lemma_key_bag(rest, key);
        assert(rest.push(last) =~= properties);
        assert(properties.to_multiset() =~= rest.to_multiset().insert(last));
        if last.key == key {
            assert(key_bag(properties, key) =~= key_bag(rest, key).insert(last));
            if key_count(properties, key) == 1 {
                assert forall|property: Property|
                    #[trigger] key_bag(properties, key).count(property) > 0 implies last_value(
                    properties,
                    key,
                ) == Some(property.value) by {
                    assert(key_bag(rest, key).count(property) <= key_bag(rest, key).len());
                    assert(property == last);
                }
            }
        } else {
            assert(key_bag(properties, key) =~= key_bag(rest, key));
        }
    }
}

/// Properties after those of `properties` that carry none of `key` leave
/// its count and last value unchanged.
proof fn lemma_other_keys_appended(properties: Seq<Property>, extra: Seq<Property>, key: u32)
    requires
        forall|i: int| 0 <= i < extra.len() ==> (#[trigger] extra[i]).key != key,
    ensures
        key_count(properties + extra, key) == key_count(properties, key),
        last_value(properties + extra, key) == last_value(properties, key),
    decreases extra.len(),
{
    if extra.len() == 0 {
        assert(properties + extra =~= properties);
    } else {
        assert((properties + extra).drop_last() =~= properties + extra.drop_last());
        assert((properties + extra).last() == extra.last());
        lemma_other_keys_appended(properties, extra.drop_last(), key);
    }
}

/// Whether `key` counts the same and, once present, has the same value in
/// `left` and `right`.
pub open spec fn same_key(left: Seq<Property>, right: Seq<Property>, key: FormatProperties) -> bool {
    &&& key_count(left, key.spec_raw()) == key_count(right, key.spec_raw())
    &&& key_count(right, key.spec_raw()) == 1 ==> last_value(left, key.spec_raw()) == last_value(
        right,
        key.spec_raw(),
    )
}

/// The property lists `q` and `r` agree on `key` when their properties
/// with that key are the same bag.
proof fn lemma_same_key_from_bags(q: Seq<Property>, r: Seq<Property>, key: FormatProperties)
    requires
        key_bag(q, key.spec_raw()) == key_bag(r, key.spec_raw()),
    ensures
        same_key(q, r, key),
{
    broadcast use vstd::multiset::group_multiset_axioms;

    let k = key.spec_raw();
    lemma_key_bag(q, k);
    lemma_key_bag(r, k);
    if key_count(r, k) == 1 {
        let bag = key_bag(r, k);
        assert(bag.len() > 0);
        vstd::multiset::lemma_multiset_empty_len(bag);
        let property = choose|property: Property| 0 < bag.count(property);
        assert(key_bag(q, k).count(property) > 0);
    }
}

/// A format reads the same from two property lists that agree on every
/// format key: the order of properties and any other keys do not matter.
pub proof fn lemma_from_properties_reads_format_keys(q: Seq<Property>, r: Seq<Property>)
    requires
        same_key(q, r, FormatProperties::MediaType),
        same_key(q, r, FormatProperties::MediaSubtype),
        same_key(q, r, FormatProperties::NdArrayElementType),
        same_key(q, r, FormatProperties::NdArrayShape),
        same_key(q, r, FormatProperties::NdArrayLayout),
        same_key(q, r, FormatProperties::NdArrayRate),
    ensures
        spec_from_properties(q) == spec_from_properties(r),
{
    assert(lookup(q, FormatProperties::MediaType, true) == lookup(r, FormatProperties::MediaType, true));
    assert(lookup(q, FormatProperties::MediaSubtype, true) == lookup(r, FormatProperties::MediaSubtype, true));
    assert(lookup(q, FormatProperties::NdArrayElementType, true) == lookup(
        r,
        FormatProperties::NdArrayElementType,
        true,
    ));
    assert(lookup(q, FormatProperties::NdArrayShape, true) == lookup(r, FormatProperties::NdArrayShape, true));
    assert(lookup(q, FormatProperties::NdArrayLayout, true) == lookup(r, FormatProperties::NdArrayLayout, true));
    assert(lookup(q, FormatProperties::NdArrayRate, false) == lookup(r, FormatProperties::NdArrayRate, false));
}

/// Whether `key` is one of the keys that a fixed format reads.
pub open spec fn is_format_key(key: u32) -> bool {
    ||| key == FormatProperties::MediaType.spec_raw()
    ||| key == FormatProperties::MediaSubtype.spec_raw()
    ||| key == FormatProperties::NdArrayElementType.spec_raw()
    ||| key == FormatProperties::NdArrayShape.spec_raw()
    ||| key == FormatProperties::NdArrayLayout.spec_raw()
    ||| key == FormatProperties::NdArrayRate.spec_raw()
}

/// The properties of a valid format, in any order and mixed with
/// properties of other keys, read back as the same format.
pub proof fn lemma_format_properties_any_order(
    properties: Seq<Property>,
    extra: Seq<Property>,
    reordered: Seq<Property>,
    format: NdArraySpec,
)
    requires
        ndarray_valid(format),
        format_properties(properties, format),
        forall|i: int| 0 <= i < extra.len() ==> !is_format_key((#[trigger] extra[i]).key),
        reordered.to_multiset() == (properties + extra).to_multiset(),
    ensures
        spec_from_properties(reordered) == Ok::<NdArraySpec, NdArrayFormatError>(format),
{
    let all = properties + extra;
    assert forall|key: FormatProperties| is_format_key(key.spec_raw()) implies #[trigger] same_key(
        reordered,
        properties,
        key,
    ) by {
        assert(key_bag(reordered, key.spec_raw()) =~= key_bag(all, key.spec_raw()));
        lemma_same_key_from_bags(reordered, all, key);
        lemma_other_keys_appended(properties, extra, key.spec_raw());
    }
    assert(is_format_key(FormatProperties::MediaType.spec_raw()));
    assert(is_format_key(FormatProperties::MediaSubtype.spec_raw()));
    assert(is_format_key(FormatProperties::NdArrayElementType.spec_raw()));
    assert(is_format_key(FormatProperties::NdArrayShape.spec_raw()));
    assert(is_format_key(FormatProperties::NdArrayLayout.spec_raw()));
    assert(is_format_key(FormatProperties::NdArrayRate.spec_raw()));
    lemma_from_properties_reads_format_keys(reordered, properties);
    lemma_format_properties_round_trip(properties, format);
}

/// Reading back the properties of a vector gives the same vector.
pub proof fn lemma_vector_properties_round_trip(properties: Seq<Property>, format: NdArraySpec)
    requires
        ndarray_valid(format),
        format.shape.len() == 1,
        format.layout == NdArrayLayout::RowMajor,
        format_properties(properties, format),
    ensures
        spec_vector_from_properties(properties) == Ok::<NdArraySpec, NdArrayFormatError>(format),
{
    lemma_format_properties_round_trip(properties, format);
}

/// Reading back the properties of a matrix gives the same matrix.
pub proof fn lemma_matrix_properties_round_trip(properties: Seq<Property>, format: NdArraySpec)
    requires
        ndarray_valid(format),
        format.shape.len() == 2,
        format_properties(properties, format),
    ensures
        spec_matrix_from_properties(properties) == Ok::<NdArraySpec, NdArrayFormatError>(format),
{
    lemma_format_properties_round_trip(properties, format);
}

} // verus!

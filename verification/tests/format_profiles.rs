use pipewire_ao::format::{
    MatrixFormat, NdArrayFormat, NdArrayFormatError, NdArrayRateChoice, VectorFormat,
};
use pipewire_ao::ids::{ElementType, FormatProperties, MediaSubtype, NdArrayLayout};
use pipewire_ao::pod::{
    Choice, ChoiceEnum, ChoiceFlags, ChoiceValue, Fraction, Id, Property, Value, ValueArray,
};

#[test]
fn ndarray_profiles_validate_shape_layout_and_size() {
    let vector = VectorFormat::new(
        ElementType::F32Le,
        2048,
        Some(Fraction {
            num: 1000,
            denom: 1,
        }),
    )
    .unwrap();
    assert_eq!(vector.as_ndarray().shape(), &[2048]);
    assert_eq!(vector.as_ndarray().layout(), NdArrayLayout::RowMajor);
    assert_eq!(vector.as_ndarray().byte_count(), 8192);

    let matrix =
        MatrixFormat::new(ElementType::F64Le, 48, 64, NdArrayLayout::ColumnMajor, None).unwrap();
    assert_eq!(matrix.as_ndarray().shape(), &[48, 64]);
    assert_eq!(matrix.as_ndarray().layout(), NdArrayLayout::ColumnMajor);
    assert_eq!(matrix.as_ndarray().byte_count(), 48 * 64 * 8);

    assert_eq!(
        VectorFormat::new(ElementType::F32Le, 0, None),
        Err(NdArrayFormatError::ZeroDimension { axis: 0 })
    );
    assert_eq!(
        MatrixFormat::new(ElementType::Unknown, 48, 64, NdArrayLayout::RowMajor, None),
        Err(NdArrayFormatError::UnsupportedElementType)
    );
    assert_eq!(
        MatrixFormat::new(ElementType::F32Le, 48, 64, NdArrayLayout::Unknown, None),
        Err(NdArrayFormatError::UnsupportedLayout)
    );
}

#[test]
fn ndarray_element_types_cover_native_scalar_vocabulary() {
    let expected = [
        (ElementType::Bool8, 1),
        (ElementType::I8, 1),
        (ElementType::U8, 1),
        (ElementType::I16Le, 2),
        (ElementType::U16Le, 2),
        (ElementType::I32Le, 4),
        (ElementType::U32Le, 4),
        (ElementType::I64Le, 8),
        (ElementType::U64Le, 8),
        (ElementType::I128Le, 16),
        (ElementType::U128Le, 16),
        (ElementType::F8E4M3Fn, 1),
        (ElementType::F8E4M3Fnuz, 1),
        (ElementType::F8E5M2, 1),
        (ElementType::F8E5M2Fnuz, 1),
        (ElementType::F16Le, 2),
        (ElementType::Bf16Le, 2),
        (ElementType::F32Le, 4),
        (ElementType::F64Le, 8),
        (ElementType::F128Le, 16),
        (ElementType::ComplexF16Le, 4),
        (ElementType::ComplexBf16Le, 4),
        (ElementType::ComplexF32Le, 8),
        (ElementType::ComplexF64Le, 16),
        (ElementType::ComplexF128Le, 32),
    ];

    for (element_type, size) in expected {
        assert_eq!(element_type.size(), Some(size));
    }
    assert_eq!(ElementType::Unknown.size(), None);
    assert_eq!(ElementType::StartCustom.size(), None);
}

#[test]
fn ndarray_properties_use_native_shape_and_layout_ids() {
    let matrix =
        MatrixFormat::new(ElementType::F32Le, 3, 5, NdArrayLayout::ColumnMajor, None).unwrap();
    let properties = matrix.properties();

    assert_eq!(properties.len(), 5);
    assert_eq!(
        properties[1],
        Property::new(
            FormatProperties::MediaSubtype.as_raw(),
            Value::Id(Id(MediaSubtype::NdArray.as_raw()))
        )
    );
    assert_eq!(
        properties[3],
        Property::new(
            FormatProperties::NdArrayShape.as_raw(),
            Value::ValueArray(ValueArray::Int(vec![3, 5]))
        )
    );
    assert_eq!(
        properties[4],
        Property::new(
            FormatProperties::NdArrayLayout.as_raw(),
            Value::Id(Id(NdArrayLayout::ColumnMajor.as_raw()))
        )
    );
    assert_eq!(MatrixFormat::from_properties(&properties).unwrap(), matrix);
    assert_eq!(
        VectorFormat::from_properties(&properties),
        Err(NdArrayFormatError::WrongRank {
            expected: 1,
            actual: 2,
        })
    );
}

#[test]
fn ndarray_property_parser_rejects_missing_duplicate_and_noncanonical_values() {
    let vector = VectorFormat::new(ElementType::F32Le, 8, None).unwrap();
    let mut properties = vector.properties();
    properties.retain(|property| property.key != FormatProperties::NdArrayShape.as_raw());
    assert_eq!(
        VectorFormat::from_properties(&properties),
        Err(NdArrayFormatError::MissingProperty(
            FormatProperties::NdArrayShape
        ))
    );

    let mut properties = vector.properties();
    let duplicate = Property::new(
        FormatProperties::NdArrayShape.as_raw(),
        Value::ValueArray(ValueArray::Int(vec![8])),
    );
    assert_eq!(properties[3], duplicate);
    properties.push(duplicate);
    assert_eq!(
        VectorFormat::from_properties(&properties),
        Err(NdArrayFormatError::DuplicateProperty(
            FormatProperties::NdArrayShape
        ))
    );

    let mut properties = vector.properties();
    properties[4] = Property::new(
        FormatProperties::NdArrayLayout.as_raw(),
        Value::Id(Id(NdArrayLayout::ColumnMajor.as_raw())),
    );
    assert_eq!(
        VectorFormat::from_properties(&properties),
        Err(NdArrayFormatError::NonCanonicalVectorLayout)
    );
}

#[test]
fn ndarray_enum_format_uses_standard_choices_and_exact_shape() {
    let default = MatrixFormat::new(
        ElementType::F64Le,
        16,
        16,
        NdArrayLayout::ColumnMajor,
        Some(Fraction {
            num: 1000,
            denom: 1,
        }),
    )
    .unwrap();
    let format = default
        .enum_format()
        .with_element_type_alternatives(vec![ElementType::F32Le])
        .unwrap()
        .with_layout_alternatives(vec![NdArrayLayout::RowMajor])
        .unwrap()
        .with_rate_choice(NdArrayRateChoice::Range {
            min: Fraction { num: 500, denom: 1 },
            max: Fraction {
                num: 2000,
                denom: 1,
            },
        })
        .unwrap();
    let properties = format.properties();

    assert_eq!(
        properties[2].value,
        Value::Choice(ChoiceValue::Id(Choice(
            ChoiceFlags::empty(),
            ChoiceEnum::Enum {
                default: Id(ElementType::F64Le.as_raw()),
                alternatives: vec![
                    Id(ElementType::F64Le.as_raw()),
                    Id(ElementType::F32Le.as_raw()),
                ],
            },
        )))
    );
    assert_eq!(
        properties[3].value,
        Value::ValueArray(ValueArray::Int(vec![16, 16]))
    );
    assert_eq!(
        properties[4].value,
        Value::Choice(ChoiceValue::Id(Choice(
            ChoiceFlags::empty(),
            ChoiceEnum::Enum {
                default: Id(NdArrayLayout::ColumnMajor.as_raw()),
                alternatives: vec![
                    Id(NdArrayLayout::ColumnMajor.as_raw()),
                    Id(NdArrayLayout::RowMajor.as_raw()),
                ],
            },
        )))
    );
    assert_eq!(
        properties[5].value,
        Value::Choice(ChoiceValue::Fraction(Choice(
            ChoiceFlags::empty(),
            ChoiceEnum::Range {
                default: Fraction {
                    num: 1000,
                    denom: 1,
                },
                min: Fraction { num: 500, denom: 1 },
                max: Fraction {
                    num: 2000,
                    denom: 1,
                },
            },
        )))
    );
}

#[test]
fn ndarray_enum_format_rejects_invalid_alternatives() {
    let without_rate = VectorFormat::new(ElementType::F32Le, 8, None).unwrap();
    assert_eq!(
        without_rate
            .enum_format()
            .with_rate_choice(NdArrayRateChoice::Range {
                min: Fraction { num: 1, denom: 1 },
                max: Fraction { num: 2, denom: 1 },
            }),
        Err(NdArrayFormatError::MissingRateForChoice)
    );
    assert_eq!(
        without_rate
            .enum_format()
            .with_element_type_alternatives(vec![ElementType::Unknown]),
        Err(NdArrayFormatError::UnsupportedElementTypeAlternative { index: 0 })
    );
    assert_eq!(
        without_rate
            .enum_format()
            .with_layout_alternatives(vec![NdArrayLayout::Unknown]),
        Err(NdArrayFormatError::UnsupportedLayoutAlternative { index: 0 })
    );

    let with_rate = VectorFormat::new(
        ElementType::F32Le,
        8,
        Some(Fraction {
            num: 1000,
            denom: 1,
        }),
    )
    .unwrap();
    assert_eq!(
        with_rate
            .enum_format()
            .with_rate_choice(NdArrayRateChoice::Range {
                min: Fraction {
                    num: 1500,
                    denom: 1,
                },
                max: Fraction {
                    num: 2000,
                    denom: 1,
                },
            }),
        Err(NdArrayFormatError::InvalidRateChoice)
    );
}

#[test]
fn general_formats_check_every_axis() {
    let format = NdArrayFormat::new(
        ElementType::U16Le,
        vec![2, 3, 4],
        NdArrayLayout::RowMajor,
        None,
    )
    .unwrap();
    assert_eq!(format.element_count(), 24);
    assert_eq!(format.byte_count(), 48);
    assert_eq!(
        NdArrayFormat::new(ElementType::U16Le, vec![], NdArrayLayout::RowMajor, None),
        Err(NdArrayFormatError::EmptyShape)
    );
    assert_eq!(
        NdArrayFormat::new(ElementType::U16Le, vec![2, 0], NdArrayLayout::RowMajor, None),
        Err(NdArrayFormatError::ZeroDimension { axis: 1 })
    );
    assert_eq!(
        NdArrayFormat::new(ElementType::U16Le, vec![0x8000_0000], NdArrayLayout::RowMajor, None),
        Err(NdArrayFormatError::DimensionTooLarge { axis: 0 })
    );
    assert_eq!(
        NdArrayFormat::new(
            ElementType::U16Le,
            vec![4],
            NdArrayLayout::RowMajor,
            Some(Fraction { num: 0, denom: 1 })
        ),
        Err(NdArrayFormatError::InvalidRate)
    );
    let round_trip = NdArrayFormat::from_properties(&format.properties()).unwrap();
    assert_eq!(round_trip, format);
}

#[test]
fn format_properties_read_back_in_any_order_among_other_keys() {
    let format = NdArrayFormat::new(
        ElementType::U16Le,
        vec![2, 3],
        NdArrayLayout::ColumnMajor,
        Some(Fraction { num: 30, denom: 1 }),
    )
    .unwrap();
    let mut properties = format.properties();
    properties.reverse();
    properties.insert(2, Property::new(0x7_0000, Value::Int(5)));
    properties.push(Property::new(0x7_0001, Value::Bool(true)));
    assert_eq!(NdArrayFormat::from_properties(&properties).unwrap(), format);
}

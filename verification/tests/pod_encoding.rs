use pipewire_ao::pod::{
    Choice, ChoiceEnum, ChoiceFlags, ChoiceValue, Fraction, Id, Object, Property, Rectangle,
    Value, ValueArray,
};
use pipewire_ao::pod_wire::{
    encode_props, props_fields, push_value, read_object, serialize_object, PodField, PropValue,
    PropsError,
};

fn value_bytes(value: &Value) -> Vec<u8> {
    let mut out = Vec::new();
    assert!(push_value(&mut out, value));
    out
}

#[test]
fn scalar_pods_are_padded_to_eight_bytes() {
    assert_eq!(value_bytes(&Value::Int(-2)), vec![4, 0, 0, 0, 4, 0, 0, 0, 0xfe, 0xff, 0xff, 0xff, 0, 0, 0, 0]);
    assert_eq!(value_bytes(&Value::Bool(true)), vec![4, 0, 0, 0, 2, 0, 0, 0, 1, 0, 0, 0, 0, 0, 0, 0]);
    assert_eq!(
        value_bytes(&Value::Long(0x0102_0304_0506_0708)),
        vec![8, 0, 0, 0, 5, 0, 0, 0, 8, 7, 6, 5, 4, 3, 2, 1]
    );
    assert_eq!(
        value_bytes(&Value::String("ab".to_owned())),
        vec![3, 0, 0, 0, 8, 0, 0, 0, b'a', b'b', 0, 0, 0, 0, 0, 0]
    );
    assert_eq!(
        value_bytes(&Value::Rectangle(Rectangle { width: 2, height: 3 })),
        vec![8, 0, 0, 0, 10, 0, 0, 0, 2, 0, 0, 0, 3, 0, 0, 0]
    );
    assert_eq!(value_bytes(&Value::Bytes(vec![])), vec![0, 0, 0, 0, 9, 0, 0, 0]);
}

#[test]
fn arrays_and_choices_pack_their_elements() {
    assert_eq!(
        value_bytes(&Value::ValueArray(ValueArray::Int(vec![3, 5]))),
        vec![16, 0, 0, 0, 13, 0, 0, 0, 4, 0, 0, 0, 4, 0, 0, 0, 3, 0, 0, 0, 5, 0, 0, 0]
    );
    assert_eq!(
        value_bytes(&Value::Choice(ChoiceValue::Fraction(Choice(
            ChoiceFlags::empty(),
            ChoiceEnum::Range {
                default: Fraction { num: 30, denom: 1 },
                min: Fraction { num: 1, denom: 1 },
                max: Fraction { num: 60, denom: 1 },
            },
        ))))
        .len(),
        8 + 16 + 3 * 8
    );
    let id_enum = value_bytes(&Value::Choice(ChoiceValue::Id(Choice(
        ChoiceFlags::empty(),
        ChoiceEnum::Enum { default: Id(1), alternatives: vec![Id(1), Id(2)] },
    ))));
    assert_eq!(&id_enum[0..8], &[28, 0, 0, 0, 19, 0, 0, 0]);
    assert_eq!(&id_enum[8..16], &[3, 0, 0, 0, 0, 0, 0, 0]);
    assert_eq!(id_enum.len(), 40);
}

#[test]
fn objects_read_back_their_scalar_properties() {
    let object = Object {
        type_: 0x40003,
        id: 4,
        properties: vec![
            Property::new(1, Value::Id(Id(2))),
            Property::new(3, Value::Int(-7)),
            Property::new(5, Value::String("x".to_owned())),
            Property::new(6, Value::Fraction(Fraction { num: 1, denom: 2 })),
        ],
    };
    let bytes = serialize_object(&object).unwrap();
    assert_eq!(bytes.len() % 8, 0);
    let decoded = read_object(&bytes).unwrap();
    assert_eq!((decoded.object_type, decoded.id), (0x40003, 4));
    assert_eq!(
        decoded.properties,
        vec![
            (1, PropValue::Field(PodField::Id(2))),
            (3, PropValue::Field(PodField::Int(-7))),
            (5, PropValue::Field(PodField::String("x".to_owned()))),
            (6, PropValue::Field(PodField::Other(11))),
        ]
    );
}

#[test]
fn props_structs_round_trip() {
    let bytes = encode_props(vec![
        Value::String("key".to_owned()),
        Value::Long(-9),
        Value::Bool(false),
    ])
    .unwrap();
    assert_eq!(
        props_fields(&bytes),
        Ok(vec![
            PodField::String("key".to_owned()),
            PodField::Long(-9),
            PodField::Other(2),
        ])
    );
}

#[test]
fn malformed_props_are_rejected() {
    assert_eq!(props_fields(&[]), Err(PropsError::InvalidObject));
    let not_props = serialize_object(&Object {
        type_: 0x40002,
        id: 2,
        properties: vec![Property::new(0x80001, Value::Int(1))],
    })
    .unwrap();
    assert_eq!(props_fields(&not_props), Err(PropsError::InvalidFields));
    let wrong_key = serialize_object(&Object {
        type_: 0x40002,
        id: 2,
        properties: vec![Property::new(7, Value::Struct(vec![]))],
    })
    .unwrap();
    assert_eq!(props_fields(&wrong_key), Err(PropsError::InvalidObject));
    let mut truncated = encode_props(vec![Value::String("k".to_owned())]).unwrap();
    truncated.truncate(truncated.len() - 8);
    assert_eq!(props_fields(&truncated), Err(PropsError::InvalidObject));
    let mut bad_utf8 = encode_props(vec![Value::String("k".to_owned())]).unwrap();
    let last_text = bad_utf8.len() - 8;
    bad_utf8[last_text] = 0xff;
    assert_eq!(props_fields(&bad_utf8), Err(PropsError::InvalidObject));
}

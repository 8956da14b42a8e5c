use pipewire_ao::meta::{
    AcquisitionDomain, AcquisitionIdentity, AcquisitionMetaError, AcquisitionPtpReference,
    PtpClockIdentity, ACQUISITION_DOMAIN_SIZE, ACQUISITION_PTP_CLOCK_ID_SIZE,
    META_FEATURE_ACQUISITION_VERSION_1, META_SIZE_ACQUISITION, META_SIZE_PROGRESSIVE,
    META_TYPE_ACQUISITION, META_TYPE_HEADER, META_TYPE_PROGRESSIVE, MetaHeader, MetaHeaderFlags,
    MetaHeaderRaw, Metadata, META_HEADER_FLAG_DISCONT, META_HEADER_FLAG_MARKER,
};
use pipewire_ao::meta::{
    AcquisitionFlags, AcquisitionTimebase, MetaAcquisition, MetaAcquisitionRaw,
    ACQUISITION_FLAG_EXPOSURE_DURATION_VALID, ACQUISITION_FLAG_EXPOSURE_START_VALID,
    ACQUISITION_FLAG_IDENTITY_VALID, ACQUISITION_FLAG_PTP_REFERENCE_VALID,
    ACQUISITION_TIMEBASE_TAI, ACQUISITION_VERSION_1, ACQUISITION_VERSION_2,
};
use pipewire_ao::parameters::{
    Parameters, SPA_PARAM_BUFFERS, SPA_PARAM_BUFFERS_BUFFERS, SPA_PARAM_META,
    SPA_PARAM_META_FEATURES, SPA_PARAM_META_SIZE, SPA_PARAM_META_TYPE,
    SPA_TYPE_OBJECT_PARAM_BUFFERS, SPA_TYPE_OBJECT_PARAM_META,
};
use pipewire_ao::pod::{Choice, ChoiceEnum, ChoiceFlags, ChoiceValue, Id, Object, Property, Value};
use pipewire_ao::pod_wire::{read_object, PodField, PropValue};
use pipewire_ao::properties::Properties;

fn domain(first_byte: u8) -> AcquisitionDomain {
    let mut bytes = [0; ACQUISITION_DOMAIN_SIZE];
    bytes[0] = first_byte;
    AcquisitionDomain::new(bytes).unwrap()
}

fn grandmaster(first_byte: u8) -> PtpClockIdentity {
    let mut bytes = [0; ACQUISITION_PTP_CLOCK_ID_SIZE];
    bytes[0] = first_byte;
    PtpClockIdentity::new(bytes).unwrap()
}

#[test]
fn acquisition_identifiers_must_not_be_all_zero() {
    assert_eq!(ACQUISITION_DOMAIN_SIZE, 16);
    assert_eq!(ACQUISITION_PTP_CLOCK_ID_SIZE, 8);
    assert_eq!(
        AcquisitionDomain::new([0; ACQUISITION_DOMAIN_SIZE]),
        Err(AcquisitionMetaError)
    );
    assert_eq!(
        PtpClockIdentity::new([0; ACQUISITION_PTP_CLOCK_ID_SIZE]),
        Err(AcquisitionMetaError)
    );
    let mut last = [0; ACQUISITION_DOMAIN_SIZE];
    last[15] = 9;
    assert_eq!(AcquisitionDomain::new(last).unwrap().as_bytes(), &last);
}

#[test]
fn acquisition_identity_keeps_its_parts() {
    let identity = AcquisitionIdentity::new(domain(1), 7, 42);
    assert_eq!(identity.domain(), domain(1));
    assert_eq!(identity.generation(), 7);
    assert_eq!(identity.sequence(), 42);
    assert_ne!(identity, AcquisitionIdentity::new(domain(1), 7, 43));

    let reference = AcquisitionPtpReference::new(grandmaster(1), 7);
    assert_eq!(reference.grandmaster(), grandmaster(1));
    assert_eq!(reference.domain_number(), 7);
    assert_eq!(reference.grandmaster().as_bytes()[0], 1);
}

fn meta_property(object: &pipewire_ao::pod_wire::DecodedObject, key: u32) -> Option<&PropValue> {
    object
        .properties
        .iter()
        .find(|(property_key, _)| *property_key == key)
        .map(|(_, value)| value)
}

#[test]
fn progressive_metadata_request_has_no_features_property() {
    let parameters = Parameters::new(vec![]).with_progressive_meta();
    let pods = parameters.pods();
    assert_eq!(pods.len(), 1);
    let object = read_object(pods[0]).expect("expected object");
    assert_eq!(object.object_type, SPA_TYPE_OBJECT_PARAM_META);
    assert_eq!(object.id, SPA_PARAM_META);
    assert_eq!(
        meta_property(&object, SPA_PARAM_META_TYPE),
        Some(&PropValue::Field(PodField::Id(META_TYPE_PROGRESSIVE)))
    );
    assert_eq!(
        meta_property(&object, SPA_PARAM_META_SIZE),
        Some(&PropValue::Field(PodField::Int(META_SIZE_PROGRESSIVE as i32)))
    );
    assert!(meta_property(&object, SPA_PARAM_META_FEATURES).is_none());
}

#[test]
fn acquisition_metadata_request_carries_version_feature() {
    let parameters = Parameters::new(vec![]).with_acquisition_meta();
    let object = read_object(parameters.pods()[0]).expect("expected object");
    assert_eq!(
        meta_property(&object, SPA_PARAM_META_TYPE),
        Some(&PropValue::Field(PodField::Id(META_TYPE_ACQUISITION)))
    );
    assert_eq!(
        meta_property(&object, SPA_PARAM_META_SIZE),
        Some(&PropValue::Field(PodField::Int(META_SIZE_ACQUISITION as i32)))
    );
    assert_eq!(
        meta_property(&object, SPA_PARAM_META_FEATURES),
        Some(&PropValue::Field(PodField::Int(META_FEATURE_ACQUISITION_VERSION_1)))
    );
}

#[test]
fn parameters_keep_their_objects_in_order() {
    let first = Object {
        type_: 0x40004,
        id: 5,
        properties: vec![Property::new(1, Value::Int(8))],
    };
    let second = Object {
        type_: 0x40005,
        id: 6,
        properties: vec![Property::new(1, Value::Id(Id(1)))],
    };
    let parameters = Parameters::new(vec![first, second]).with_progressive_meta();
    let pods = parameters.pods();
    assert_eq!(pods.len(), 3);
    assert_eq!(read_object(pods[0]).unwrap().id, 5);
    assert_eq!(read_object(pods[1]).unwrap().id, 6);
    assert_eq!(read_object(pods[2]).unwrap().id, SPA_PARAM_META);
}

#[test]
fn properties_read_back_the_last_insert() {
    let mut properties = Properties::new();
    assert_eq!(properties.get("media.class"), None);
    properties.insert("media.class", "Video/Source");
    properties.insert("node.name", "camera");
    properties.insert("media.class", "Stream/Output/Video");
    assert_eq!(properties.get("media.class"), Some("Stream/Output/Video"));
    assert_eq!(properties.get("node.name"), Some("camera"));
}

fn object(type_: u32, id: u32, properties: Vec<Property>) -> Object {
    Object {
        type_,
        id,
        properties,
    }
}

#[test]
fn fixed_buffer_count_replaces_the_negotiated_range() {
    let parameters = Parameters::new(vec![object(
        SPA_TYPE_OBJECT_PARAM_BUFFERS,
        SPA_PARAM_BUFFERS,
        vec![Property::new(SPA_PARAM_BUFFERS_BUFFERS, Value::Int(8))],
    )])
    .with_fixed_buffer_count(3)
    .unwrap();

    let object = read_object(parameters.pods()[0]).expect("expected object");
    assert_eq!(object.properties[0].1, PropValue::Field(PodField::Int(3)));
}

#[test]
fn metadata_request_can_be_removed_by_type() {
    let parameters = Parameters::new(vec![object(
        SPA_TYPE_OBJECT_PARAM_META,
        SPA_PARAM_META,
        vec![Property::new(
            SPA_PARAM_META_TYPE,
            Value::Id(Id(META_TYPE_HEADER)),
        )],
    )])
    .without_meta(META_TYPE_HEADER)
    .unwrap();

    assert!(parameters.pods().is_empty());
}

#[test]
fn buffer_counts_are_validated_and_ranges_replaced() {
    let range = || {
        Parameters::new(vec![
            object(0x40003, 4, vec![Property::new(1, Value::Int(1))]),
            object(
                SPA_TYPE_OBJECT_PARAM_BUFFERS,
                SPA_PARAM_BUFFERS,
                vec![
                    Property::new(2, Value::Int(4096)),
                    Property::new(
                        SPA_PARAM_BUFFERS_BUFFERS,
                        Value::Choice(ChoiceValue::Int(Choice(
                            ChoiceFlags::empty(),
                            ChoiceEnum::Range { default: 8, min: 2, max: 16 },
                        ))),
                    ),
                    Property::new(3, Value::Int(1)),
                ],
            ),
        ])
    };
    assert_eq!(range().with_fixed_buffer_count(1).err(), Some("buffer count must be at least two"));
    assert_eq!(
        range().with_fixed_buffer_count(0x8000_0000).err(),
        Some("buffer count exceeds SPA Int")
    );
    let fixed = range().with_fixed_buffer_count(4).unwrap();
    let pods = fixed.pods();
    assert_eq!(pods.len(), 2);
    let decoded = read_object(pods[1]).unwrap();
    assert_eq!(
        decoded.properties,
        vec![
            (2, PropValue::Field(PodField::Int(4096))),
            (SPA_PARAM_BUFFERS_BUFFERS, PropValue::Field(PodField::Int(4))),
            (3, PropValue::Field(PodField::Int(1))),
        ]
    );
    assert_eq!(read_object(pods[0]).unwrap().id, 4);

    let without_count = Parameters::new(vec![object(
        SPA_TYPE_OBJECT_PARAM_BUFFERS,
        SPA_PARAM_BUFFERS,
        vec![Property::new(2, Value::Int(4096))],
    )]);
    assert_eq!(
        without_count.with_fixed_buffer_count(3).err(),
        Some("SPA_PARAM_Buffers has no buffers property")
    );
    assert_eq!(
        Parameters::new(vec![]).with_fixed_buffer_count(3).err(),
        Some("parameters do not contain SPA_PARAM_Buffers")
    );
    assert_eq!(
        Parameters::new(vec![]).without_meta(META_TYPE_HEADER).err(),
        Some("parameters do not contain the requested metadata type")
    );
}

#[test]
fn header_fields_can_be_updated_without_raw_pointer_access() {
    let mut header = MetaHeader::from_raw(MetaHeaderRaw {
        flags: 0,
        offset: 0,
        pts: 0,
        dts_offset: 0,
        seq: 0,
    });

    header.set_flags(MetaHeaderFlags(META_HEADER_FLAG_DISCONT | META_HEADER_FLAG_MARKER));
    header.set_offset(3);
    header.set_pts(5);
    header.set_dts_offset(-2);
    header.set_seq(7);

    assert_eq!(
        header.flags(),
        MetaHeaderFlags(META_HEADER_FLAG_DISCONT | META_HEADER_FLAG_MARKER)
    );
    assert_eq!(header.offset(), 3);
    assert_eq!(header.pts(), 5);
    assert_eq!(header.dts_offset(), -2);
    assert_eq!(header.seq(), 7);
}

#[test]
fn header_copies_take_every_field() {
    let source = MetaHeader::from_raw(MetaHeaderRaw {
        flags: META_HEADER_FLAG_MARKER,
        offset: 1,
        pts: 2,
        dts_offset: 3,
        seq: 4,
    });
    let mut target = MetaHeader::from_raw(MetaHeaderRaw {
        flags: 0,
        offset: 0,
        pts: 0,
        dts_offset: 0,
        seq: 0,
    });
    target.copy_from(&source);
    assert_eq!(*target.as_raw(), *source.as_raw());
    assert_eq!(<MetaHeader as Metadata>::META_TYPE, META_TYPE_HEADER);
}

fn empty_acquisition() -> MetaAcquisitionRaw {
    MetaAcquisitionRaw {
        version: ACQUISITION_VERSION_2,
        abi_size: META_SIZE_ACQUISITION as u32,
        flags: 0,
        timebase: 0,
        domain: [0; ACQUISITION_DOMAIN_SIZE],
        generation: 0,
        sequence: 0,
        exposure_start_nsec: i64::MIN,
        timestamp_uncertainty_nsec: 0,
        exposure_duration_nsec: 0,
        ptp_grandmaster_id: [0; ACQUISITION_PTP_CLOCK_ID_SIZE],
        ptp_domain_number: 0,
    }
}

#[test]
fn acquisition_fields_are_read_by_their_flags() {
    let meta = MetaAcquisition::from_raw(empty_acquisition(), true).unwrap();
    assert_eq!(meta.flags().unwrap(), AcquisitionFlags(0));
    assert_eq!(meta.identity().unwrap(), None);
    assert_eq!(meta.exposure_start().unwrap(), None);
    assert_eq!(meta.exposure_timebase().unwrap(), None);
    assert_eq!(meta.ptp_reference().unwrap(), None);
    assert_eq!(meta.exposure_duration().unwrap(), None);

    let mut raw = empty_acquisition();
    raw.flags = ACQUISITION_FLAG_IDENTITY_VALID
        | ACQUISITION_FLAG_EXPOSURE_START_VALID
        | ACQUISITION_FLAG_EXPOSURE_DURATION_VALID;
    raw.domain[0] = 1;
    raw.generation = 7;
    raw.sequence = 42;
    raw.exposure_start_nsec = 123_456;
    raw.timestamp_uncertainty_nsec = 9;
    raw.exposure_duration_nsec = 5_000;
    let meta = MetaAcquisition::from_raw(raw, true).unwrap();
    assert_eq!(
        meta.identity().unwrap(),
        Some(AcquisitionIdentity::new(domain(1), 7, 42))
    );
    assert_eq!(meta.exposure_start().unwrap(), Some((123_456, 9)));
    assert_eq!(meta.exposure_timebase().unwrap(), Some(AcquisitionTimebase::Monotonic));
    assert_eq!(meta.exposure_duration().unwrap(), Some(5_000));
    assert_eq!(meta.ptp_reference().unwrap(), None);
}

#[test]
fn acquisition_ptp_times_name_their_authority() {
    let mut raw = empty_acquisition();
    raw.flags = ACQUISITION_FLAG_EXPOSURE_START_VALID | ACQUISITION_FLAG_PTP_REFERENCE_VALID;
    raw.timebase = ACQUISITION_TIMEBASE_TAI;
    raw.exposure_start_nsec = 123_456;
    raw.ptp_grandmaster_id[0] = 1;
    raw.ptp_domain_number = 7;
    let meta = MetaAcquisition::from_raw(raw, true).unwrap();
    assert_eq!(meta.exposure_timebase().unwrap(), Some(AcquisitionTimebase::Tai));
    assert_eq!(
        meta.ptp_reference().unwrap(),
        Some(AcquisitionPtpReference::new(grandmaster(1), 7))
    );

    raw.version = ACQUISITION_VERSION_1;
    let meta = MetaAcquisition::from_raw(raw, true).unwrap();
    assert_eq!(meta.exposure_timebase().unwrap(), Some(AcquisitionTimebase::Monotonic));
}

#[test]
fn malformed_acquisition_fields_are_rejected() {
    assert!(MetaAcquisition::from_raw(empty_acquisition(), false).is_err());

    let mut raw = empty_acquisition();
    raw.flags = 1 << 31;
    let meta = MetaAcquisition::from_raw(raw, true).unwrap();
    assert_eq!(meta.flags(), Err(AcquisitionMetaError));
    assert_eq!(meta.identity(), Err(AcquisitionMetaError));

    let mut raw = empty_acquisition();
    raw.flags = ACQUISITION_FLAG_EXPOSURE_START_VALID;
    raw.timebase = 9;
    let meta = MetaAcquisition::from_raw(raw, true).unwrap();
    assert_eq!(meta.exposure_timebase(), Err(AcquisitionMetaError));

    let mut raw = empty_acquisition();
    raw.flags = ACQUISITION_FLAG_IDENTITY_VALID | ACQUISITION_FLAG_PTP_REFERENCE_VALID;
    let meta = MetaAcquisition::from_raw(raw, true).unwrap();
    let identity = meta.identity().unwrap().unwrap();
    assert_eq!(identity.domain().as_bytes(), &[0; ACQUISITION_DOMAIN_SIZE]);
    assert_eq!(meta.ptp_reference(), Err(AcquisitionMetaError));
}

#[test]
fn fixed_buffer_count_keeps_every_other_byte() {
    let build = |count: i32| {
        Parameters::new(vec![object(
            SPA_TYPE_OBJECT_PARAM_BUFFERS,
            SPA_PARAM_BUFFERS,
            vec![
                Property::new(2, Value::Int(4096)),
                Property::new(SPA_PARAM_BUFFERS_BUFFERS, Value::Int(count)),
                Property::new(3, Value::Long(-7)),
            ],
        )])
    };
    let fixed = build(8).with_fixed_buffer_count(5).unwrap();
    let expected = build(5);
    assert_eq!(fixed.pods()[0], expected.pods()[0]);
}

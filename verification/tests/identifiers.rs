use pipewire_ao::param::{BufferPageSizeHint, BufferProperties};
use pipewire_ao::ids::{ElementType, FormatProperties, MediaSubtype, MediaType, NdArrayLayout};
use pipewire_ao::discard::{DiscardMetric, PROP_START_CUSTOM};
use pipewire_ao::filter::FilterState;
use pipewire_ao::fits::{COMPLETED_PROPERTY, COMPLETED_PROPERTY_NAME};
use pipewire_ao::image_source::{
    acquire_result, prepare_result, update_result, ImageBufferState, ImageProgressive,
    ImageSourceConfig, ImageSourceFlags, EPROTO, IMAGE_SOURCE_FLAG_ALL,
    IMAGE_SOURCE_FLAG_ALLOW_PROGRESSIVE, IMAGE_SOURCE_FLAG_REQUIRE_ACQUISITION,
    IMAGE_SOURCE_FLAG_REQUIRE_HEADER, IMAGE_SOURCE_RECORD_VERSION,
};
use pipewire_ao::rtc_data_loop::{
    result, RtcDataLoopConfig, RtcIdle, RtcScheduler, RTC_DATA_LOOP_IDLE_BUSY_SPIN,
    RTC_DATA_LOOP_IDLE_EVENTFD, RTC_DATA_LOOP_IDLE_HYBRID, RTC_DATA_LOOP_SCHED_FIFO,
    RTC_DATA_LOOP_SCHED_OTHER,
};

#[test]
fn metric_ids_match_the_public_contiguous_contract() {
    let metrics = [
        DiscardMetric::Buffers,
        DiscardMetric::DataBlocks,
        DiscardMetric::Bytes,
        DiscardMetric::ProtocolErrors,
        DiscardMetric::ProcessCalls,
    ];
    for (offset, metric) in metrics.into_iter().enumerate() {
        assert_eq!(
            metric.property_id(),
            PROP_START_CUSTOM + u32::try_from(offset).unwrap()
        );
        assert!(metric.name().starts_with("discard."));
    }
}

#[test]
fn metric_names_are_the_advertised_ones() {
    assert_eq!(DiscardMetric::Buffers.name(), "discard.buffers");
    assert_eq!(DiscardMetric::DataBlocks.name(), "discard.data-blocks");
    assert_eq!(DiscardMetric::Bytes.name(), "discard.bytes");
    assert_eq!(DiscardMetric::ProtocolErrors.name(), "discard.protocol-errors");
    assert_eq!(DiscardMetric::ProcessCalls.name(), "discard.process-calls");
    assert_eq!(DiscardMetric::ProcessCalls.property_id(), 0x0100_0004);
}

#[test]
fn completion_uses_the_public_custom_property_base() {
    assert_eq!(COMPLETED_PROPERTY, PROP_START_CUSTOM);
    assert_eq!(COMPLETED_PROPERTY_NAME, "fits.completed");
}

#[test]
fn native_config_preserves_idle_and_scheduler_choices() {
    let busy = RtcDataLoopConfig {
        idle: RtcIdle::BusySpin,
        scheduler: RtcScheduler::Other,
    }
    .as_raw();
    assert_eq!(busy.idle, RTC_DATA_LOOP_IDLE_BUSY_SPIN);
    assert_eq!(busy.scheduler, RTC_DATA_LOOP_SCHED_OTHER);
    assert_eq!(busy.priority, 0);
    assert_eq!(busy.hybrid_spin_iterations, 0);

    let hybrid = RtcDataLoopConfig {
        idle: RtcIdle::Hybrid {
            spin_iterations: 4096,
        },
        scheduler: RtcScheduler::Fifo { priority: 83 },
    }
    .as_raw();
    assert_eq!(hybrid.idle, RTC_DATA_LOOP_IDLE_HYBRID);
    assert_eq!(hybrid.scheduler, RTC_DATA_LOOP_SCHED_FIFO);
    assert_eq!(hybrid.priority, 83);
    assert_eq!(hybrid.hybrid_spin_iterations, 4096);
}

#[test]
fn eventfd_idle_uses_no_spins_or_priority() {
    let raw = RtcDataLoopConfig {
        idle: RtcIdle::EventFd,
        scheduler: RtcScheduler::Fifo { priority: -1 },
    }
    .as_raw();
    assert_eq!(raw.idle, RTC_DATA_LOOP_IDLE_EVENTFD);
    assert_eq!(raw.hybrid_spin_iterations, 0);
    assert_eq!(raw.priority, -1);
}

#[test]
fn native_results_map_to_errno() {
    assert_eq!(result(0), Ok(()));
    assert_eq!(result(3), Ok(()));
    assert_eq!(result(-22), Err(22));
}

#[test]
fn config_preserves_pool_and_capability_contract() {
    let raw = ImageSourceConfig {
        min_buffers: 2,
        max_buffers: 8,
        flags: ImageSourceFlags(IMAGE_SOURCE_FLAG_REQUIRE_HEADER)
            .union(ImageSourceFlags(IMAGE_SOURCE_FLAG_REQUIRE_ACQUISITION))
            .union(ImageSourceFlags(IMAGE_SOURCE_FLAG_ALLOW_PROGRESSIVE)),
    }
    .as_raw();
    assert_eq!(raw.version, IMAGE_SOURCE_RECORD_VERSION);
    assert_eq!(raw.min_buffers, 2);
    assert_eq!(raw.max_buffers, 8);
    assert_eq!(raw.flags, IMAGE_SOURCE_FLAG_ALL);
}

#[test]
fn progressive_descriptor_preserves_prefix_contract() {
    let raw = ImageProgressive {
        payload_size: 4096,
        commit_granularity: 256,
        committed: 512,
    }
    .as_raw();
    assert_eq!(raw.version, IMAGE_SOURCE_RECORD_VERSION);
    assert_eq!(raw.payload_size, 4096);
    assert_eq!(raw.commit_granularity, 256);
    assert_eq!(raw.committed, 512);
}

#[test]
fn image_source_results_are_interpreted() {
    assert_eq!(prepare_result(4), Ok(4));
    assert_eq!(prepare_result(0), Err(EPROTO));
    assert_eq!(prepare_result(-12), Err(12));
    assert_eq!(acquire_result(0, false), Ok(false));
    assert_eq!(acquire_result(1, true), Ok(true));
    assert_eq!(acquire_result(1, false), Err(EPROTO));
    assert_eq!(acquire_result(2, true), Err(EPROTO));
    assert_eq!(acquire_result(-16, false), Err(16));
    assert_eq!(update_result(1), Ok(true));
    assert_eq!(update_result(0), Ok(false));
    assert_eq!(update_result(-5), Err(5));
    assert_eq!(ImageBufferState::from_raw(3), Some(ImageBufferState::Progressive));
    assert_eq!(ImageBufferState::from_raw(5), None);
    assert!(ImageSourceFlags(IMAGE_SOURCE_FLAG_ALL).contains(ImageSourceFlags(IMAGE_SOURCE_FLAG_REQUIRE_HEADER)));
    assert!(!ImageSourceFlags::empty().contains(ImageSourceFlags(IMAGE_SOURCE_FLAG_REQUIRE_HEADER)));
}

#[test]
fn filter_states_follow_native_codes() {
    assert_eq!(FilterState::from_raw(0, None), FilterState::Unconnected);
    assert_eq!(FilterState::from_raw(3, None), FilterState::Streaming);
    assert_eq!(
        FilterState::from_raw(-1, Some("link failed".to_owned())),
        FilterState::Error("link failed".to_owned())
    );
    assert_eq!(FilterState::from_raw(-1, None), FilterState::Error(String::new()));
}

#[test]
fn buffer_page_size_hint_matches_native_abi() {
    assert_eq!(BufferProperties::PageSizeHint.as_raw(), 0x0100_0000);
    assert_eq!(BufferPageSizeHint::Normal.as_raw(), 0);
    assert_eq!(BufferPageSizeHint::HugeDefault.as_raw(), 1);
    assert_eq!(BufferPageSizeHint::Huge2Mb.as_raw(), 2);
    assert_eq!(BufferPageSizeHint::Huge1Gb.as_raw(), 3);
}

#[test]
fn page_size_hints_read_back_from_their_identifiers() {
    for hint in [
        BufferPageSizeHint::Normal,
        BufferPageSizeHint::HugeDefault,
        BufferPageSizeHint::Huge2Mb,
        BufferPageSizeHint::Huge1Gb,
    ] {
        assert_eq!(BufferPageSizeHint::from_raw(hint.as_raw()), hint);
    }
    assert_eq!(BufferPageSizeHint::from_raw(4), BufferPageSizeHint::Other(4));
    assert_eq!(BufferPageSizeHint::Other(4).as_raw(), 4);
}

#[test]
fn unnamed_identifiers_keep_their_raw_values() {
    assert_eq!(MediaType::from_raw(2), MediaType::Video);
    assert_eq!(MediaType::from_raw(0x10001), MediaType::Other(0x10001));
    assert_eq!(MediaSubtype::from_raw(0x60002), MediaSubtype::NdArray);
    let binary = MediaSubtype::from_raw(0x40001);
    assert_eq!(binary, MediaSubtype::Other(0x40001));
    assert!(binary.is_binary());
    assert_eq!(binary.as_raw(), 0x40001);
    let custom = ElementType::from_raw(0x10001);
    assert_eq!(custom, ElementType::Other(0x10001));
    assert_eq!(custom.size(), None);
    assert_eq!(NdArrayLayout::from_raw(7), NdArrayLayout::Other(7));
    assert!(FormatProperties::from_raw(0x50001).is_stream());
    assert_eq!(BufferProperties::from_raw(3), BufferProperties::Size);
    assert_eq!(BufferProperties::from_raw(99), BufferProperties::Other(99));
}

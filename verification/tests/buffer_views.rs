use pipewire_ao::buffer::{Chunk, ChunkFlags, DataPlane, CHUNK_FLAG_EMPTY};
use pipewire_ao::format::{MatrixFormat, NdArrayFormat};
use pipewire_ao::ids::{ElementType, NdArrayLayout};
use pipewire_ao::ndarray::{input, output, stride, validate_alignment, validate_type, Element, Error};
use pipewire_ao::progressive::{
    progressive_sample_count,
    validate_observation, ProgressiveBufferError, ProgressiveFlags, ProgressiveInput,
    ProgressiveOutputBuffer, ProgressiveSnapshot, ProgressiveState, PROGRESSIVE_FLAG_CANCELLED,
    PROGRESSIVE_FLAG_INCOMPLETE, PROGRESSIVE_FLAG_PROTOCOL_ERROR,
};

fn format(element_type: ElementType, shape: [u32; 2], layout: NdArrayLayout) -> NdArrayFormat {
    NdArrayFormat::new(element_type, shape.to_vec(), layout, None).unwrap()
}

fn plane(address: usize, maxsize: u32, offset: u32, size: u32, stride: i32) -> DataPlane {
    DataPlane {
        address,
        maxsize,
        chunk: Chunk {
            offset,
            size,
            stride,
            flags: ChunkFlags::empty(),
        },
    }
}

#[test]
fn stride_tracks_the_contiguous_axis() {
    assert_eq!(
        stride(&format(ElementType::F32Le, [3, 5], NdArrayLayout::RowMajor)),
        Ok(20)
    );
    assert_eq!(
        stride(&format(
            ElementType::F32Le,
            [3, 5],
            NdArrayLayout::ColumnMajor
        )),
        Ok(12)
    );
}

#[test]
fn direct_view_requires_the_matching_rust_type() {
    let format = format(ElementType::F32Le, [3, 5], NdArrayLayout::RowMajor);
    assert_eq!(validate_type(&format, ElementType::F32Le, 4, true), Ok(()));
    assert_eq!(
        validate_type(&format, ElementType::U32Le, 4, true),
        Err(Error::ElementType)
    );
}

#[test]
fn integer_types_use_their_canonical_element_types() {
    assert_eq!(<u8 as Element>::element_type(), ElementType::U8);
    assert_eq!(<u16 as Element>::element_type(), ElementType::U16Le);
    assert_eq!(<i64 as Element>::element_type(), ElementType::I64Le);
    assert_eq!(<u128 as Element>::element_type(), ElementType::U128Le);
}

#[test]
fn big_endian_targets_only_view_single_bytes() {
    let bytes = format(ElementType::U8, [2, 2], NdArrayLayout::RowMajor);
    assert_eq!(validate_type(&bytes, ElementType::U8, 1, false), Ok(()));
    let words = format(ElementType::U16Le, [2, 2], NdArrayLayout::RowMajor);
    assert_eq!(validate_type(&words, ElementType::U16Le, 2, false), Err(Error::Endianness));
}

#[test]
fn alignment_is_a_multiple_of_the_scalar_alignment() {
    assert_eq!(validate_alignment(0x1000, 8), Ok(()));
    assert_eq!(validate_alignment(0x1004, 8), Err(Error::Alignment));
    assert_eq!(validate_alignment(0, 0), Ok(()));
    assert_eq!(validate_alignment(4, 0), Err(Error::Alignment));
}

#[test]
fn complete_inputs_are_located_in_their_plane() {
    let matrix = MatrixFormat::new(ElementType::U16Le, 2, 3, NdArrayLayout::RowMajor, None).unwrap();
    let format = matrix.as_ndarray();
    let planes = [plane(0x2000, 64, 8, 12, 6)];
    assert_eq!(input(&planes, format, ElementType::U16Le, 2, 2, true), Ok((8, 20)));

    let wrapped = [plane(0x2000, 64, 72, 12, 0)];
    assert_eq!(input(&wrapped, format, ElementType::U16Le, 2, 2, true), Ok((8, 20)));

    assert_eq!(input(&[], format, ElementType::U16Le, 2, 2, true), Err(Error::Data));
    let unmapped = [plane(0, 64, 8, 12, 6)];
    assert_eq!(input(&unmapped, format, ElementType::U16Le, 2, 2, true), Err(Error::Data));
    let mut empty = plane(0x2000, 64, 8, 12, 6);
    empty.chunk.flags = ChunkFlags(CHUNK_FLAG_EMPTY);
    assert_eq!(input(&[empty], format, ElementType::U16Le, 2, 2, true), Err(Error::ChunkFlags));
    let short = [plane(0x2000, 64, 8, 10, 6)];
    assert_eq!(input(&short, format, ElementType::U16Le, 2, 2, true), Err(Error::ChunkLayout));
    let wrong_stride = [plane(0x2000, 64, 8, 12, 4)];
    assert_eq!(input(&wrong_stride, format, ElementType::U16Le, 2, 2, true), Err(Error::ChunkLayout));
    let overrun = [plane(0x2000, 16, 8, 12, 6)];
    assert_eq!(input(&overrun, format, ElementType::U16Le, 2, 2, true), Err(Error::ChunkLayout));
    let misaligned = [plane(0x2001, 64, 8, 12, 6)];
    assert_eq!(input(&misaligned, format, ElementType::U16Le, 2, 2, true), Err(Error::Alignment));
}

#[test]
fn outputs_publish_their_complete_chunk() {
    let matrix = MatrixFormat::new(ElementType::U32Le, 4, 2, NdArrayLayout::ColumnMajor, None).unwrap();
    let format = matrix.as_ndarray();
    let planes = [plane(0x4000, 64, 99, 1, 1)];
    assert_eq!(
        output(&planes, format, ElementType::U32Le, 4, 4, true),
        Ok(Chunk { offset: 0, size: 32, stride: 16, flags: ChunkFlags::empty() })
    );
    let small = [plane(0x4000, 16, 0, 0, 0)];
    assert_eq!(output(&small, format, ElementType::U32Le, 4, 4, true), Err(Error::ChunkLayout));
    assert_eq!(output(&planes, format, ElementType::I32Le, 4, 4, true), Err(Error::ElementType));
}

#[test]
fn progressive_observations_are_monotonic_and_terminal() {
    let active = ProgressiveSnapshot::new(256, ProgressiveState::Active);
    let complete = ProgressiveSnapshot::new(1024, ProgressiveState::Complete);
    assert_eq!(validate_observation(active, None, 1024, 256), Ok(()));
    assert_eq!(
        validate_observation(complete, Some(active), 1024, 256),
        Ok(())
    );
    assert_eq!(
        validate_observation(active, Some(complete), 1024, 256),
        Err(ProgressiveBufferError::InvalidState)
    );
    assert_eq!(
        validate_observation(
            ProgressiveSnapshot::new(128, ProgressiveState::Active),
            None,
            1024,
            256,
        ),
        Err(ProgressiveBufferError::InvalidState)
    );
}

#[test]
fn producers_publish_growing_prefixes_until_terminal() {
    let planes = [plane(0x8000, 4096, 0, 1024, 0)];
    let (mut output, layout, first) =
        ProgressiveOutputBuffer::begin(&planes, 0, 0, 1024, 256, true, false).unwrap();
    assert_eq!(layout.address, 0x8000);
    assert_eq!(first.committed_bytes(), 0);
    assert_eq!(first.state(), ProgressiveState::Active);

    let write = output.write_until(512).unwrap();
    assert_eq!((write.start(), write.end(), write.len()), (0, 512, 512));
    let published = write.commit(&mut output);
    assert_eq!(published.committed_bytes(), 512);
    assert_eq!(output.committed_bytes(), 512);
    assert!(output.write_until(700).is_err());

    let mut input = ProgressiveInput::new(&planes, 0, 0, 1024, 256, true, false).unwrap();
    let read = input.acquire(published, None).unwrap();
    assert_eq!(read.len(), 512);
    assert_eq!(input.acquire(first, None).unwrap_err(), ProgressiveBufferError::InvalidState);

    let write = output.write_until(1024).unwrap();
    let _ = write.commit(&mut output);
    let done = output.complete().unwrap();
    assert_eq!(done.state(), ProgressiveState::Complete);
    assert!(output.is_terminal());
    assert_eq!(
        output.abort(ProgressiveFlags(PROGRESSIVE_FLAG_CANCELLED)).unwrap_err(),
        ProgressiveBufferError::InvalidState
    );
}

#[test]
fn progressive_layouts_are_validated() {
    let planes = [plane(0x8000, 4096, 0, 1024, 0)];
    assert_eq!(
        ProgressiveOutputBuffer::begin(&planes, 0, 0, 1024, 0, true, false).unwrap_err(),
        ProgressiveBufferError::InvalidLayout
    );
    assert_eq!(
        ProgressiveOutputBuffer::begin(&planes, 1, 0, 1024, 256, true, false).unwrap_err(),
        ProgressiveBufferError::InvalidLayout
    );
    assert_eq!(
        ProgressiveInput::new(&planes, 0, 16, 1024, 256, true, false).unwrap_err(),
        ProgressiveBufferError::InvalidLayout
    );
}

#[test]
fn cancellation_keeps_the_committed_prefix() {
    let planes = [plane(0x8000, 4096, 0, 1024, 0)];
    let (mut output, _, _) =
        ProgressiveOutputBuffer::begin(&planes, 0, 0, 1024, 256, true, true).unwrap();
    assert_eq!(output.set_terminal_header(), Ok(()));
    let write = output.write_until(256).unwrap();
    let _ = write.commit(&mut output);

    let (flags, snapshot) = output.cancel().unwrap();
    assert_eq!(flags.0, PROGRESSIVE_FLAG_CANCELLED | PROGRESSIVE_FLAG_INCOMPLETE);
    assert_eq!(snapshot.committed_bytes(), 256);
    assert_eq!(snapshot.state(), ProgressiveState::Aborted);
    assert_eq!(output.set_terminal_header(), Err(ProgressiveBufferError::InvalidState));
    assert_eq!(output.cancel().unwrap_err(), ProgressiveBufferError::InvalidState);
}

#[test]
fn headers_need_negotiated_metadata() {
    let planes = [plane(0x8000, 4096, 0, 1024, 0)];
    let (output, _, _) = ProgressiveOutputBuffer::begin(&planes, 0, 0, 1024, 256, true, false).unwrap();
    assert_eq!(output.set_terminal_header(), Err(ProgressiveBufferError::InvalidMetadata));
}

#[test]
fn failed_announcements_abort_with_a_protocol_error() {
    let (flags, snapshot) = ProgressiveOutputBuffer::announcement_failed();
    assert_eq!(flags.0, PROGRESSIVE_FLAG_INCOMPLETE | PROGRESSIVE_FLAG_PROTOCOL_ERROR);
    assert_eq!(snapshot.committed_bytes(), 0);
    assert_eq!(snapshot.state(), ProgressiveState::Aborted);
}

#[test]
fn progressive_buffers_need_valid_metadata() {
    let planes = [plane(0x8000, 4096, 0, 1024, 0)];
    assert_eq!(
        ProgressiveOutputBuffer::begin(&planes, 0, 0, 1024, 256, false, false).unwrap_err(),
        ProgressiveBufferError::InvalidMetadata
    );
    assert_eq!(
        ProgressiveOutputBuffer::begin(&planes, 1, 0, 1024, 256, false, false).unwrap_err(),
        ProgressiveBufferError::InvalidLayout
    );
    assert_eq!(
        ProgressiveInput::new(&planes, 0, 0, 1024, 256, false, false).unwrap_err(),
        ProgressiveBufferError::InvalidMetadata
    );
    assert_eq!(
        ProgressiveInput::new(&planes, 0, 16, 1024, 256, false, false).unwrap_err(),
        ProgressiveBufferError::InvalidMetadata
    );
}

#[test]
fn sample_views_need_whole_aligned_little_endian_samples() {
    assert_eq!(progressive_sample_count(0x8000, 1024, 4, true), Ok(256));
    assert_eq!(
        progressive_sample_count(0x8000, 1022, 4, true),
        Err(ProgressiveBufferError::InvalidLayout)
    );
    assert_eq!(
        progressive_sample_count(0x8002, 1024, 4, true),
        Err(ProgressiveBufferError::InvalidLayout)
    );
    assert_eq!(
        progressive_sample_count(0x8000, 1024, 4, false),
        Err(ProgressiveBufferError::InvalidLayout)
    );
}

#[test]
fn primitive_types_use_their_canonical_element_types() {
    assert_eq!(<u8 as Element>::element_type(), ElementType::U8);
    assert_eq!(<u16 as Element>::element_type(), ElementType::U16Le);
}

#[test]
fn f32_view_never_expands_the_unpublished_range() {
    let mut aligned = [0.0_f32; 4];
    let base = aligned.as_ptr() as usize;
    let little_endian = u16::from_ne_bytes([1, 0]) == 1;
    let align = std::mem::align_of::<f32>();

    let count = progressive_sample_count(base + 4, 8, align, little_endian).unwrap();
    assert_eq!(count, 2);
    let values = [3.0_f32, 4.0];
    aligned[1..1 + count].copy_from_slice(&values[..count]);
    assert_eq!(aligned, [0.0, 3.0, 4.0, 0.0]);
    assert_eq!(
        progressive_sample_count(base + 1, 4, align, little_endian),
        Err(ProgressiveBufferError::InvalidLayout)
    );
}

#[test]
fn releasing_an_unterminated_producer_cancels_it() {
    let planes = [plane(0x8000, 4096, 0, 1024, 0)];
    let (mut output, _, _) =
        ProgressiveOutputBuffer::begin(&planes, 0, 0, 1024, 256, true, false).unwrap();
    let write = output.write_until(256).unwrap();
    let _ = write.commit(&mut output);
    let (flags, snapshot) = output.release().unwrap();
    assert_eq!(flags.0, PROGRESSIVE_FLAG_CANCELLED | PROGRESSIVE_FLAG_INCOMPLETE);
    assert_eq!(snapshot.committed_bytes(), 256);
    assert_eq!(snapshot.state(), ProgressiveState::Aborted);
    assert!(output.release().is_none());

    let (mut done, _, _) =
        ProgressiveOutputBuffer::begin(&planes, 0, 0, 1024, 1024, true, false).unwrap();
    let write = done.write_until(1024).unwrap();
    let _ = write.commit(&mut done);
    done.complete().unwrap();
    assert!(done.release().is_none());
}

use wavefront::layout::{
    align_offset, buffer_size, decode_queue_header, element_offset, encode_queue_header,
    queue_buffer_size, read_u32_le,
};

#[test]
fn header_encodes_capacity_and_length_little_endian() {
    let header = encode_queue_header(5, 3);
    assert_eq!(header.len(), 16);
    assert_eq!(&header[0..4], &[5, 0, 0, 0]);
    assert_eq!(&header[4..8], &[3, 0, 0, 0]);
    assert_eq!(&header[8..16], &[0u8; 8]);

    let header = encode_queue_header(0x1234_5678, 0xAABB_CCDD);
    assert_eq!(&header[0..4], &[0x78, 0x56, 0x34, 0x12]);
    assert_eq!(&header[4..8], &[0xDD, 0xCC, 0xBB, 0xAA]);
}

#[test]
fn header_round_trips_through_decode() {
    let header = encode_queue_header(1024, 17);
    assert_eq!(decode_queue_header(&header), (1024, 17));
    let header = encode_queue_header(u32::MAX, 0);
    assert_eq!(decode_queue_header(&header), (u32::MAX, 0));
}

#[test]
fn u32_reads_at_arbitrary_offsets() {
    let bytes = vec![0xFF, 0x01, 0x00, 0x00, 0x00, 0x02, 0x00, 0x00, 0x00];
    assert_eq!(read_u32_le(&bytes, 1), 1);
    assert_eq!(read_u32_le(&bytes, 5), 2);
}

#[test]
fn element_offsets_follow_the_header() {
    assert_eq!(element_offset(0, 48), 16);
    assert_eq!(element_offset(1, 48), 64);
    assert_eq!(element_offset(10, 48), 16 + 480);
    assert_eq!(queue_buffer_size(16, 48), 16 + 16 * 48);
}

#[test]
fn buffer_size_is_stride_times_count() {
    assert_eq!(buffer_size(48, 0), 0);
    assert_eq!(buffer_size(48, 100), 4800);
    assert_eq!(buffer_size(1, 7), 7);
}

#[test]
fn align_offset_pads_to_the_next_multiple() {
    assert_eq!(align_offset(0, 16), 0);
    assert_eq!(align_offset(16, 16), 0);
    assert_eq!(align_offset(5, 16), 11);
    assert_eq!(align_offset(17, 16), 15);
    assert_eq!(align_offset(9, 0), 0);
    assert_eq!(align_offset(9, 1), 0);
}

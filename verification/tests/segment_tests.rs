use pgs::{
    Error, PgsMemoryBuffer, PgsOdsSegment, PgsOdsSequenceFlag, PgsPcsCompositionState,
    PgsPcsObjectCroppedFlag, PgsPcsSegment, PgsPdsSegment, PgsSeek, PgsSegmentHeader,
    PgsSegmentType, PgsWdsSegment, ReadBytes,
};

fn header(segment_type: PgsSegmentType, segment_length: u16) -> PgsSegmentHeader {
    PgsSegmentHeader { segment_type, segment_length, presentation_timestamp: 0, decoding_timestamp: 0 }
}

#[test]
fn memory_buffer_reads_integers_big_endian() {
    let mut buf = PgsMemoryBuffer::from_vec(vec![0x12, 0x34, 0x56, 0x78, 0x9A]);
    assert_eq!(buf.read_u16::<pgs::BigEndian>().unwrap(), 0x1234);
    assert_eq!(buf.read_u8().unwrap(), 0x56);
    assert_eq!(buf.pos().unwrap(), 3);
    buf.seek(0).unwrap();
    assert_eq!(buf.read_u24::<pgs::BigEndian>().unwrap(), 0x123456);
    buf.seek(1).unwrap();
    assert_eq!(buf.read_u32::<pgs::BigEndian>().unwrap(), 0x3456789A);
    assert!(matches!(buf.read_u8(), Err(Error::EndOfData)));
}

#[test]
fn memory_buffer_reads_integers_little_endian() {
    let mut buf = PgsMemoryBuffer::from_slice(&[0x12, 0x34, 0x56, 0x78]);
    assert_eq!(buf.read_u16::<pgs::LittleEndian>().unwrap(), 0x3412);
    buf.seek(0).unwrap();
    assert_eq!(buf.read_u24::<pgs::LittleEndian>().unwrap(), 0x563412);
    buf.seek(0).unwrap();
    assert_eq!(buf.read_u32::<pgs::LittleEndian>().unwrap(), 0x78563412);
}

#[test]
fn memory_buffer_bulk_reads_and_remaining() {
    let mut buf = PgsMemoryBuffer::from_vec(vec![1, 2, 3, 4, 5]);
    let first: [u8; 2] = buf.read_bytes::<2>().unwrap();
    assert_eq!(first, [1, 2]);
    assert_eq!(buf.remaining_slice(), &[3, 4, 5]);
    let rest = buf.read_into_vec(2).unwrap();
    assert_eq!(rest, vec![3, 4]);
    assert!(matches!(buf.read_into_vec(2), Err(Error::EndOfData)));
    assert_eq!(buf.len().unwrap(), 5);
    assert!(buf.is_empty()); // reports "holds at least one byte"
    // Seeking past the end is allowed; reads made there fail.
    buf.seek(100).unwrap();
    assert_eq!(buf.remaining_slice(), &[] as &[u8]);
    assert!(matches!(buf.read_u8(), Err(Error::EndOfData)));
}

#[test]
fn header_parses_every_field() {
    // magic "PG", PTS 0x01020304, DTS 0x05060708, type PCS, length 0x1234
    let data = [0x50, 0x47, 0x01, 0x02, 0x03, 0x04, 0x05, 0x06, 0x07, 0x08, 0x16, 0x12, 0x34];
    let h = PgsSegmentHeader::from_data(&data).unwrap();
    assert_eq!(h.segment_type, PgsSegmentType::PCS);
    assert_eq!(h.presentation_timestamp, 0x01020304);
    assert_eq!(h.decoding_timestamp, 0x05060708);
    assert_eq!(h.segment_length, 0x1234);
}

#[test]
fn header_rejects_bad_magic() {
    let data = [0x51, 0x47, 0, 0, 0, 0, 0, 0, 0, 0, 0x16, 0, 0];
    assert!(matches!(PgsSegmentHeader::from_data(&data), Err(Error::ReadInvalidSegment)));
}

#[test]
fn header_rejects_short_input() {
    let data = [0x50, 0x47, 0, 0];
    assert!(matches!(PgsSegmentHeader::from_data(&data), Err(Error::InvalidSegmentDataLength)));
}

#[test]
fn header_keeps_unknown_tag_as_err() {
    let data = [0x50, 0x47, 0, 0, 0, 0, 0, 0, 0, 0, 0x99, 0, 0];
    let h = PgsSegmentHeader::from_data(&data).unwrap();
    assert_eq!(h.segment_type, PgsSegmentType::ERR);
}

#[test]
fn wds_parses_windows() {
    // one window: id 7, x 0x0102, y 0x0304, width 0x0506, height 0x0708
    let body = [1u8, 7, 0x01, 0x02, 0x03, 0x04, 0x05, 0x06, 0x07, 0x08];
    let seg = PgsWdsSegment::from_data(header(PgsSegmentType::WDS, 10), &body).unwrap();
    assert_eq!(seg.number_of_windows, 1);
    assert_eq!(seg.windows.len(), 1);
    assert_eq!(seg.windows[0].window_id, 7);
    assert_eq!(seg.windows[0].window_horizontal_position, 0x0102);
    assert_eq!(seg.windows[0].window_vertical_position, 0x0304);
    assert_eq!(seg.windows[0].window_width, 0x0506);
    assert_eq!(seg.windows[0].window_height, 0x0708);
}

#[test]
fn wds_rejects_short_body() {
    let body = [1u8, 7, 0x01];
    assert!(matches!(
        PgsWdsSegment::from_data(header(PgsSegmentType::WDS, 3), &body),
        Err(Error::EndOfData)
    ));
    // body shorter than the declared segment length
    assert!(matches!(
        PgsWdsSegment::from_data(header(PgsSegmentType::WDS, 10), &body),
        Err(Error::InvalidSegmentDataLength)
    ));
}

#[test]
fn pds_derives_entry_count_from_body_length() {
    // id 9, version 1, then 12 remaining bytes: (12 - 2) / 5 = 2 entries
    let body = [
        9u8, 1, // id, version
        0, 10, 20, 30, 40, // entry 0
        1, 50, 60, 70, 80, // entry 1
        0xAA, 0xBB, // the two bytes the count rule sets aside
    ];
    let seg = PgsPdsSegment::from_data(header(PgsSegmentType::PDS, 14), &body).unwrap();
    assert_eq!(seg.palette_id, 9);
    assert_eq!(seg.palette_version_number, 1);
    assert_eq!(seg.palette_entries.len(), 2);
    assert_eq!(seg.palette_entries.len() * 5 + 2, body.len() - 2);
    assert_eq!(seg.palette_entries[0].palette_entry_id, 0);
    assert_eq!(seg.palette_entries[0].luminance, 10);
    assert_eq!(seg.palette_entries[0].color_difference_red, 20);
    assert_eq!(seg.palette_entries[0].color_difference_blue, 30);
    assert_eq!(seg.palette_entries[0].transparency, 40);
    assert_eq!(seg.palette_entries[1].luminance, 50);
}

#[test]
fn pds_rejects_tiny_body() {
    let body = [9u8, 1, 5];
    assert!(matches!(
        PgsPdsSegment::from_data(header(PgsSegmentType::PDS, 3), &body),
        Err(Error::EndOfData)
    ));
}

#[test]
fn ods_parses_first_fragment_with_dimensions() {
    // object id 0x0102, version 3, flag First (0x80),
    // declared length 9 (payload 5 after width and height), w 0x0004, h 0x0002
    let mut body = vec![0x01, 0x02, 3, 0x80, 0x00, 0x00, 0x09, 0x00, 0x04, 0x00, 0x02];
    body.extend_from_slice(&[0xAA, 0xBB, 0xCC, 0xDD, 0xEE]);
    let seg = PgsOdsSegment::from_data(header(PgsSegmentType::ODS, 16), &body).unwrap();
    assert_eq!(seg.object_id, 0x0102);
    assert_eq!(seg.object_version_number, 3);
    assert_eq!(seg.last_in_sequence_flag, PgsOdsSequenceFlag::First);
    assert_eq!(seg.object_data_length, 5);
    assert_eq!(seg.width, 4);
    assert_eq!(seg.height, 2);
    assert_eq!(seg.object_data, vec![0xAA, 0xBB, 0xCC, 0xDD, 0xEE]);
    assert_eq!(seg.object_data.len() as u32, 9 - 4);
}

#[test]
fn ods_last_fragment_has_zero_dimensions() {
    // flag Last (0x40): no width or height bytes follow the length
    let body = [0x00, 0x01, 0, 0x40, 0x00, 0x00, 0x06, 0x11, 0x22];
    let seg = PgsOdsSegment::from_data(header(PgsSegmentType::ODS, 9), &body).unwrap();
    assert_eq!(seg.last_in_sequence_flag, PgsOdsSequenceFlag::Last);
    assert_eq!(seg.width, 0);
    assert_eq!(seg.height, 0);
    assert_eq!(seg.object_data_length, 2);
    assert_eq!(seg.object_data, vec![0x11, 0x22]);
}

#[test]
fn ods_rejects_payload_cut_short() {
    // declared length 9 but only one payload byte present
    let body = [0x00, 0x01, 0, 0x80, 0x00, 0x00, 0x09, 0x00, 0x04, 0x00, 0x02, 0xAA];
    assert!(matches!(
        PgsOdsSegment::from_data(header(PgsSegmentType::ODS, 12), &body),
        Err(Error::EndOfData)
    ));
}

#[test]
fn pcs_parses_fixed_fields_and_plain_object() {
    let body = [
        0x07, 0x80, // width 1920
        0x04, 0x38, // height 1080
        0x10, // frame rate byte (skipped)
        0x00, 0x05, // composition number 5
        0x80, // state EpochStart
        0x00, // palette update flag
        0x03, // palette id
        0x01, // one composition object
        0x00, 0x01, // object id 1
        0x02, // window id 2
        0x00, // cropped flag off
        0x00, 0x64, // x 100
        0x00, 0xC8, // y 200
    ];
    let seg = PgsPcsSegment::from_data(header(PgsSegmentType::PCS, 19), &body).unwrap();
    assert_eq!(seg.width, 1920);
    assert_eq!(seg.height, 1080);
    assert_eq!(seg.frame_rate, 0x10);
    assert_eq!(seg.composition_number, 5);
    assert_eq!(seg.composition_state, PgsPcsCompositionState::EpochStart);
    assert_eq!(seg.palette_update_flag, 0);
    assert_eq!(seg.palette_id, 3);
    assert_eq!(seg.number_of_composition_objects, 1);
    assert_eq!(seg.composition_objects.len(), 1);
    let obj = &seg.composition_objects[0];
    assert_eq!(obj.object_id, 1);
    assert_eq!(obj.window_id, 2);
    assert_eq!(obj.object_cropped_flag, PgsPcsObjectCroppedFlag::Off);
    assert_eq!(obj.object_horizontal_position, 100);
    assert_eq!(obj.object_vertical_position, 200);
    assert_eq!(obj.object_cropping_width, 0);
}

#[test]
fn pcs_parses_cropped_object() {
    let body = [
        0x00, 0x10, // width
        0x00, 0x20, // height
        0x10, // frame rate byte
        0x00, 0x01, // composition number
        0x40, // state AcquisitionPoint
        0x00, // palette update flag
        0x00, // palette id
        0x01, // one composition object
        0x00, 0x01, // object id
        0x00, // window id
        0x40, // cropped flag: forced cropping
        0x00, 0x0A, // x
        0x00, 0x0B, // y
        0x00, 0x01, // cropping x
        0x00, 0x02, // cropping y
        0x00, 0x03, // cropping width
        0x00, 0x04, // cropping height
    ];
    let seg = PgsPcsSegment::from_data(header(PgsSegmentType::PCS, 27), &body).unwrap();
    assert_eq!(seg.composition_state, PgsPcsCompositionState::AcquisitionPoint);
    let obj = &seg.composition_objects[0];
    assert_eq!(obj.object_cropped_flag, PgsPcsObjectCroppedFlag::ForceCroppedImage);
    assert_eq!(obj.object_cropping_horizontal_position, 1);
    assert_eq!(obj.object_cropping_vertical_position, 2);
    assert_eq!(obj.object_cropping_width, 3);
    assert_eq!(obj.object_cropping_height_position, 4);
}

#[test]
fn pcs_rejects_object_cut_short() {
    let body = [
        0x00, 0x10, 0x00, 0x20, 0x10, 0x00, 0x01, 0x00, 0x00, 0x00,
        0x02, // two objects declared
        0x00, 0x01, 0x00, 0x00, 0x00, 0x0A, 0x00, 0x0B, // only one present
    ];
    assert!(matches!(
        PgsPcsSegment::from_data(header(PgsSegmentType::PCS, 19), &body),
        Err(Error::EndOfData)
    ));
}

#[test]
fn segment_type_round_trip() {
    assert_eq!(PgsSegmentType::from(0x14), PgsSegmentType::PDS);
    assert_eq!(PgsSegmentType::from(0x15), PgsSegmentType::ODS);
    assert_eq!(PgsSegmentType::from(0x16), PgsSegmentType::PCS);
    assert_eq!(PgsSegmentType::from(0x17), PgsSegmentType::WDS);
    assert_eq!(PgsSegmentType::from(0x80), PgsSegmentType::END);
    assert_eq!(PgsSegmentType::from(0x00), PgsSegmentType::ERR);
    assert_eq!(PgsSegmentType::from(0x42), PgsSegmentType::ERR);
}

#[test]
fn sequence_flag_decoding() {
    assert_eq!(PgsOdsSequenceFlag::from(0x40), PgsOdsSequenceFlag::Last);
    assert_eq!(PgsOdsSequenceFlag::from(0x80), PgsOdsSequenceFlag::First);
    assert_eq!(PgsOdsSequenceFlag::from(0xC0), PgsOdsSequenceFlag::Both);
    assert_eq!(PgsOdsSequenceFlag::from(0x00), PgsOdsSequenceFlag::Unknown);
}

use pgs::{Error, PgsDisplaySet, PgsDisplaySetState, PgsParser};

fn header_bytes(type_byte: u8, body_len: u16) -> Vec<u8> {
    let mut h = vec![0x50, 0x47, 0, 0, 0, 0, 0, 0, 0, 0];
    h.push(type_byte);
    h.extend_from_slice(&body_len.to_be_bytes());
    h
}

fn pcs_segment_bytes() -> Vec<u8> {
    // a PCS with no composition objects
    let body = [0x00, 0x10, 0x00, 0x20, 0x10, 0x00, 0x01, 0x80, 0x00, 0x00, 0x00];
    let mut s = header_bytes(0x16, body.len() as u16);
    s.extend_from_slice(&body);
    s
}

fn wds_segment_bytes() -> Vec<u8> {
    // a WDS with one window
    let body = [1u8, 0, 0x00, 0x0A, 0x00, 0x0B, 0x00, 0x04, 0x00, 0x02];
    let mut s = header_bytes(0x17, body.len() as u16);
    s.extend_from_slice(&body);
    s
}

fn pds_segment_bytes() -> Vec<u8> {
    // palette id 0, version 0, two 5-byte entries and the two spare bytes
    let body = [
        0u8, 0, // id, version
        0, 50, 100, 100, 0, // entry 0: Y 50, Cr 100, Cb 100, alpha 0
        1, 150, 200, 200, 0, // entry 1: Y 150, Cr 200, Cb 200, alpha 0
        0, 0, // spare
    ];
    let mut s = header_bytes(0x14, body.len() as u16);
    s.extend_from_slice(&body);
    s
}

fn ods_segment_bytes() -> Vec<u8> {
    // flag Both, 5 x 2 image, the payload of the reference decode scenario
    let payload = [0x00u8, 0x00, 0x01, 0x02, 0x01, 0x03, 0x02];
    let declared = (payload.len() + 4) as u32;
    let mut body = vec![0x00, 0x00, 0x00, 0xC0];
    body.extend_from_slice(&declared.to_be_bytes()[1..4]);
    body.extend_from_slice(&[0x00, 0x05, 0x00, 0x02]);
    body.extend_from_slice(&payload);
    let mut s = header_bytes(0x15, body.len() as u16);
    s.extend_from_slice(&body);
    s
}

fn end_segment_bytes() -> Vec<u8> {
    header_bytes(0x80, 0)
}

#[test]
fn stream_of_one_complete_display_set() {
    let mut stream = Vec::new();
    stream.extend(pcs_segment_bytes());
    stream.extend(wds_segment_bytes());
    stream.extend(pds_segment_bytes());
    stream.extend(ods_segment_bytes());
    stream.extend(end_segment_bytes());

    let parser = PgsParser::parse(&stream).unwrap();
    let sets = parser.get_display_sets();
    assert_eq!(sets.len(), 1);
    assert_eq!(sets[0].state(), PgsDisplaySetState::Complete);

    let rle = sets[0].get_rle_image().unwrap();
    assert_eq!(rle, &vec![0x00u8, 0x00, 0x01, 0x02, 0x01, 0x03, 0x02]);

    // the reference decode scenario, through the whole pipeline
    let image = sets[0].get_decoded_image(false).unwrap();
    let expected = vec![
        vec![0x0u32, 0x0, 0x0, 0x0, 0x0],
        vec![0xFA49FF, 0xFFFFFF, 0xFA49FF, 0xFFFFFF, 0xFFFFFF],
    ];
    assert_eq!(image, expected);
}

// PCS, WDS, END makes one display set in the empty-frame state.
#[test]
fn empty_frame_display_set() {
    let mut stream = Vec::new();
    stream.extend(pcs_segment_bytes());
    stream.extend(wds_segment_bytes());
    stream.extend(end_segment_bytes());

    let parser = PgsParser::parse(&stream).unwrap();
    let sets = parser.get_display_sets();
    assert_eq!(sets.len(), 1);
    assert_eq!(sets[0].state(), PgsDisplaySetState::EmptyFrame);
    assert!(matches!(sets[0].get_rle_image(), Err(Error::IncompleteDisplaySet)));
    assert!(matches!(sets[0].get_decoded_image(true), Err(Error::IncompleteDisplaySet)));
}

// A complete set then an empty frame: two display sets, in END order.
#[test]
fn two_display_sets_in_order() {
    let mut stream = Vec::new();
    stream.extend(pcs_segment_bytes());
    stream.extend(wds_segment_bytes());
    stream.extend(pds_segment_bytes());
    stream.extend(ods_segment_bytes());
    stream.extend(end_segment_bytes());
    stream.extend(pcs_segment_bytes());
    stream.extend(wds_segment_bytes());
    stream.extend(end_segment_bytes());

    let parser = PgsParser::parse(&stream).unwrap();
    let sets = parser.get_display_sets();
    assert_eq!(sets.len(), 2);
    assert_eq!(sets[0].state(), PgsDisplaySetState::Complete);
    assert_eq!(sets[1].state(), PgsDisplaySetState::EmptyFrame);
}

// A stream with no END produces zero display sets.
#[test]
fn stream_without_end_produces_no_display_sets() {
    let mut stream = Vec::new();
    stream.extend(pcs_segment_bytes());
    stream.extend(wds_segment_bytes());
    stream.extend(pds_segment_bytes());
    stream.extend(ods_segment_bytes());

    let parser = PgsParser::parse(&stream).unwrap();
    assert_eq!(parser.get_display_sets().len(), 0);
}

// Segments after the last END are discarded: no partial set is flushed.
#[test]
fn trailing_segments_are_discarded() {
    let mut stream = Vec::new();
    stream.extend(pcs_segment_bytes());
    stream.extend(wds_segment_bytes());
    stream.extend(end_segment_bytes());
    stream.extend(pcs_segment_bytes());
    stream.extend(wds_segment_bytes());
    stream.extend(pds_segment_bytes());

    let parser = PgsParser::parse(&stream).unwrap();
    let sets = parser.get_display_sets();
    assert_eq!(sets.len(), 1);
    assert_eq!(sets[0].state(), PgsDisplaySetState::EmptyFrame);
}

// Within one display set the latest segment of a kind wins.
#[test]
fn latest_segment_wins_within_display_set() {
    let mut stream = Vec::new();
    stream.extend(pcs_segment_bytes());
    stream.extend(wds_segment_bytes());
    stream.extend(pds_segment_bytes());
    stream.extend(pds_segment_bytes());
    stream.extend(ods_segment_bytes());
    stream.extend(end_segment_bytes());

    let parser = PgsParser::parse(&stream).unwrap();
    let sets = parser.get_display_sets();
    assert_eq!(sets.len(), 1);
    assert_eq!(sets[0].state(), PgsDisplaySetState::Complete);
}

// A 13-byte block whose first two bytes are not "PG" fails the parse.
#[test]
fn stream_with_bad_magic_is_rejected() {
    let mut stream = pcs_segment_bytes();
    stream[0] = 0x51;
    assert!(matches!(PgsParser::parse(&stream), Err(Error::ReadInvalidSegment)));
}

// An unknown segment type tag aborts the parse.
#[test]
fn stream_with_unknown_tag_is_rejected() {
    let stream = header_bytes(0x42, 0);
    assert!(matches!(PgsParser::parse(&stream), Err(Error::ReadInvalidSegment)));
}

// A stream cut short, and an empty stream, report the end of data.
#[test]
fn truncated_streams_report_end_of_data() {
    assert!(matches!(PgsParser::parse(&[]), Err(Error::EndOfData)));
    assert!(matches!(PgsParser::parse(&[0x50, 0x47, 0x00]), Err(Error::EndOfData)));
    let mut stream = pcs_segment_bytes();
    stream.pop();
    assert!(matches!(PgsParser::parse(&stream), Err(Error::EndOfData)));
}

// An error anywhere discards every segment parsed before it.
#[test]
fn parse_error_discards_all_results() {
    let mut stream = Vec::new();
    stream.extend(pcs_segment_bytes());
    stream.extend(wds_segment_bytes());
    stream.extend(end_segment_bytes());
    stream.extend(header_bytes(0x42, 0)); // unknown tag after a full set
    assert!(matches!(PgsParser::parse(&stream), Err(Error::ReadInvalidSegment)));
}

// A fresh display set is incomplete and yields no image.
#[test]
fn fresh_display_set_is_incomplete() {
    let ds = PgsDisplaySet::new();
    assert_eq!(ds.state(), PgsDisplaySetState::Incomplete);
    assert!(matches!(ds.get_rle_image(), Err(Error::IncompleteDisplaySet)));
    assert!(matches!(ds.get_decoded_image(false), Err(Error::IncompleteDisplaySet)));
}

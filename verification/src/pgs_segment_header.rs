//! The fixed 13-byte header that precedes every PGS segment.

use vstd::prelude::*;

use crate::pgs_error::{Error, PgsResult};
use crate::pgs_memory_buffer::{spec_u16_be, BigEndian, PgsMemoryBuffer, ReadBytes};
use crate::pgs_segment_type::{spec_segment_type_of, PgsSegmentType};

verus! {

/// The length of a PGS segment header in bytes.
pub const PGS_SEGMENT_HEADER_LENGTH: usize = 13;

/// The magic number that opens every segment: the characters "PG".
pub const PG: u16 = 0x5047;

/// The header of a PGS segment: magic number, presentation and decoding
/// timestamps, segment type tag, and the length of the body that follows.
#[derive(Debug, Clone, Copy, PartialEq, Eq, Structural)]
pub struct PgsSegmentHeader {
    /// The type of the segment.
    pub segment_type: PgsSegmentType,
    /// The length of the segment body (the header itself not counted).
    pub segment_length: u16,
    /// The presentation timestamp (PTS) of the segment.
    pub presentation_timestamp: u32,
    /// The decoding timestamp (DTS) of the segment.
    pub decoding_timestamp: u32,
}

/// The header denoted by the first 13 bytes of `data`:
/// - fewer than 13 bytes: `InvalidSegmentDataLength`;
/// - a leading 16-bit value other than 0x5047: `ReadInvalidSegment`;
/// - otherwise the parsed header. An unknown type tag still parses, with
///   the type set to `ERR`; rejecting it is the stream parser's duty.
pub open spec fn spec_parse_segment_header(data: Seq<u8>) -> PgsResult<PgsSegmentHeader> {
    if data.len() < PGS_SEGMENT_HEADER_LENGTH {
        Err(Error::InvalidSegmentDataLength)
    } else if spec_u16_be(data.subrange(0, 2)) != PG {
        Err(Error::ReadInvalidSegment)
    } else {
        Ok(
            PgsSegmentHeader {
                segment_type: spec_segment_type_of(data[10]),
                segment_length: spec_u16_be(data.subrange(11, 13)),
                presentation_timestamp: crate::pgs_memory_buffer::spec_u32_be(
                    data.subrange(2, 6),
                ),
                decoding_timestamp: crate::pgs_memory_buffer::spec_u32_be(data.subrange(6, 10)),
            },
        )
    }
}

impl PgsSegmentHeader {
    fn new(
        segment_type: PgsSegmentType,
        presentation_timestamp: u32,
        decoding_timestamp: u32,
        segment_length: u16,
    ) -> (r: Self)
        ensures
            r == (PgsSegmentHeader {
                segment_type,
                segment_length,
                presentation_timestamp,
                decoding_timestamp,
            }),
    {
        PgsSegmentHeader { segment_type, segment_length, presentation_timestamp, decoding_timestamp }
    }

    /// Parses a segment header from the first 13 bytes of `data`,
    /// verifying the magic number.
    pub fn from_data(data: &[u8]) -> (r: PgsResult<PgsSegmentHeader>)
        ensures
            r == spec_parse_segment_header(data@),
    {
        if data.len() < PGS_SEGMENT_HEADER_LENGTH {
            return Err(Error::InvalidSegmentDataLength);
        }
        let mut buffer: PgsMemoryBuffer = PgsMemoryBuffer::from_slice(data);

        let pg = match buffer.read_u16::<BigEndian>() {
            Ok(v) => v,
            Err(e) => return Err(e),
        };
        if pg != PG {
            return Err(Error::ReadInvalidSegment);
        }
        let pts = match buffer.read_u32::<BigEndian>() {
            Ok(v) => v,
            Err(e) => return Err(e),
        };
        let dts = match buffer.read_u32::<BigEndian>() {
            Ok(v) => v,
            Err(e) => return Err(e),
        };
        let type_byte = match buffer.read_u8() {
            Ok(v) => v,
            Err(e) => return Err(e),
        };
        let s_type = PgsSegmentType::from(type_byte);
        let s_size = match buffer.read_u16::<BigEndian>() {
            Ok(v) => v,
            Err(e) => return Err(e),
        };

        Ok(PgsSegmentHeader::new(s_type, pts, dts, s_size))
    }
}

impl Default for PgsSegmentHeader {
    /// The placeholder header: type `ERR` and zero in every other field.
    fn default() -> (r: Self)
        ensures
            r == (PgsSegmentHeader {
                segment_type: PgsSegmentType::ERR,
                segment_length: 0u16,
                presentation_timestamp: 0u32,
                decoding_timestamp: 0u32,
            }),
    {
        Self {
            segment_type: PgsSegmentType::ERR,
            segment_length: 0,
            presentation_timestamp: 0,
            decoding_timestamp: 0,
        }
    }
}

} // verus!

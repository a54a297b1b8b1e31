//! The Object Definition Segment (ODS): the run-length-encoded subtitle
//! bitmap, with its dimensions and sequence metadata.

use vstd::prelude::*;

use crate::pgs_error::{Error, PgsResult};
use crate::pgs_memory_buffer::{spec_u16_be, spec_u24_be, BigEndian, PgsMemoryBuffer, ReadBytes};
use crate::pgs_read::PgsSeek;
use crate::pgs_segment_header::PgsSegmentHeader;

verus! {

/// The position of an ODS within a sequence of object fragments.
#[derive(Debug, Clone, Copy, PartialEq, Eq, Hash, Structural)]
pub enum PgsOdsSequenceFlag {
    /// Any flag byte other than 0x40, 0x80 and 0xC0.
    Unknown,
    /// First fragment of a sequence (flag byte 0x80).
    First,
    /// Last fragment of a sequence (flag byte 0x40).
    Last,
    /// The only fragment of its sequence (flag byte 0xC0).
    Both,
}

/// The sequence flag denoted by a flag byte.
pub open spec fn spec_sequence_flag_of(value: u8) -> PgsOdsSequenceFlag {
    if value == 0x40 {
        PgsOdsSequenceFlag::Last
    } else if value == 0x80 {
        PgsOdsSequenceFlag::First
    } else if value == 0xC0 {
        PgsOdsSequenceFlag::Both
    } else {
        PgsOdsSequenceFlag::Unknown
    }
}

impl vstd::std_specs::convert::FromSpecImpl<u8> for PgsOdsSequenceFlag {
    open spec fn obeys_from_spec() -> bool {
        true
    }

    open spec fn from_spec(value: u8) -> Self {
        spec_sequence_flag_of(value)
    }
}

impl From<u8> for PgsOdsSequenceFlag {
    /// Decodes the sequence flag byte of an ODS.
    fn from(value: u8) -> (r: Self)
        ensures
            r == spec_sequence_flag_of(value),
    {
        match value {
            0x40 => PgsOdsSequenceFlag::Last,
            0x80 => PgsOdsSequenceFlag::First,
            0xC0 => PgsOdsSequenceFlag::Both,
            _ => PgsOdsSequenceFlag::Unknown,
        }
    }
}

/// The mathematical content of a [`PgsOdsSegment`].
pub struct OdsSegmentView {
    /// The header of the segment.
    pub header: PgsSegmentHeader,
    /// The id of the object.
    pub object_id: u16,
    /// The version number of the object.
    pub object_version_number: u8,
    /// The sequence flag of the fragment.
    pub last_in_sequence_flag: PgsOdsSequenceFlag,
    /// The length of the run-length-encoded payload: the declared object
    /// data length less the four bytes of width and height.
    pub object_data_length: u32,
    /// The width of the object; zero unless the flag is `First` or `Both`.
    pub width: u16,
    /// The height of the object; zero unless the flag is `First` or `Both`.
    pub height: u16,
    /// The run-length-encoded payload, byte for byte.
    pub object_data: Seq<u8>,
}

/// An Object Definition Segment: object metadata followed by the raw
/// run-length-encoded bitmap payload.
#[derive(Debug)]
pub struct PgsOdsSegment {
    /// The header of the segment.
    pub header: PgsSegmentHeader,
    /// The id of the object.
    pub object_id: u16,
    /// The version number of the object.
    pub object_version_number: u8,
    /// The sequence flag of the fragment.
    pub last_in_sequence_flag: PgsOdsSequenceFlag,
    /// The length of the run-length-encoded payload.
    pub object_data_length: u32,
    /// The width of the object; zero unless the flag is `First` or `Both`.
    pub width: u16,
    /// The height of the object; zero unless the flag is `First` or `Both`.
    pub height: u16,
    /// The run-length-encoded payload, byte for byte.
    pub object_data: Vec<u8>,
}

impl View for PgsOdsSegment {
    type V = OdsSegmentView;

    open spec fn view(&self) -> OdsSegmentView {
        OdsSegmentView {
            header: self.header,
            object_id: self.object_id,
            object_version_number: self.object_version_number,
            last_in_sequence_flag: self.last_in_sequence_flag,
            object_data_length: self.object_data_length,
            width: self.width,
            height: self.height,
            object_data: self.object_data@,
        }
    }
}

/// The ODS denoted by `data` under `header`:
/// - `data` shorter than the declared body length: `InvalidSegmentDataLength`;
/// - too few bytes for the fixed fields, a declared object data length
///   smaller than the four bytes of width and height it embeds, or a
///   payload cut short: `EndOfData`;
/// - otherwise the object metadata and the payload. Width and height are
///   carried by the stream only on `First` and `Both` fragments; on the
///   others both are zero.
pub open spec fn spec_parse_ods(header: PgsSegmentHeader, data: Seq<u8>) -> PgsResult<
    OdsSegmentView,
> {
    if data.len() < header.segment_length {
        Err(Error::InvalidSegmentDataLength)
    } else if data.len() < 7 {
        Err(Error::EndOfData)
    } else {
        let declared = spec_u24_be(data.subrange(4, 7));
        if declared < 4 {
            Err(Error::EndOfData)
        } else {
            let odl = (declared - 4) as u32;
            let flag = spec_sequence_flag_of(data[3]);
            if flag == PgsOdsSequenceFlag::First || flag == PgsOdsSequenceFlag::Both {
                if data.len() < 11 || data.len() < 11 + odl {
                    Err(Error::EndOfData)
                } else {
                    Ok(
                        OdsSegmentView {
                            header,
                            object_id: spec_u16_be(data.subrange(0, 2)),
                            object_version_number: data[2],
                            last_in_sequence_flag: flag,
                            object_data_length: odl,
                            width: spec_u16_be(data.subrange(7, 9)),
                            height: spec_u16_be(data.subrange(9, 11)),
                            object_data: data.subrange(11, 11 + odl),
                        },
                    )
                }
            } else {
                if data.len() < 7 + odl {
                    Err(Error::EndOfData)
                } else {
                    Ok(
                        OdsSegmentView {
                            header,
                            object_id: spec_u16_be(data.subrange(0, 2)),
                            object_version_number: data[2],
                            last_in_sequence_flag: flag,
                            object_data_length: odl,
                            width: 0u16,
                            height: 0u16,
                            object_data: data.subrange(7, 7 + odl),
                        },
                    )
                }
            }
        }
    }
}

impl Clone for PgsOdsSegment {
    /// Clones the segment; the clone has the same mathematical content.
    fn clone(&self) -> (r: Self)
        ensures
            r@ == self@,
    {
        let object_data = self.object_data.clone();
        proof {
            assert(object_data@ =~= self.object_data@);
        }
        PgsOdsSegment {
            header: self.header,
            object_id: self.object_id,
            object_version_number: self.object_version_number,
            last_in_sequence_flag: self.last_in_sequence_flag,
            object_data_length: self.object_data_length,
            width: self.width,
            height: self.height,
            object_data,
        }
    }
}

impl PgsOdsSegment {
    /// Parses an ODS body. The result agrees with [`spec_parse_ods`] on
    /// `data`, both on success and in the error it reports.
    pub fn from_data(header: PgsSegmentHeader, data: &[u8]) -> (r: PgsResult<PgsOdsSegment>)
        ensures
            spec_parse_ods(header, data@) matches Ok(v) ==> r matches Ok(seg) && seg@ == v,
            spec_parse_ods(header, data@) matches Err(e) ==> r matches Err(e2) && e2 == e,
    {
        if data.len() < header.segment_length as usize {
            return Err(Error::InvalidSegmentDataLength);
        }
        let mut buffer: PgsMemoryBuffer = PgsMemoryBuffer::from_slice(data);
        let object_id = match buffer.read_u16::<BigEndian>() {
            Ok(v) => v,
            Err(e) => return Err(e),
        };
        let object_version_number = match buffer.read_u8() {
            Ok(v) => v,
            Err(e) => return Err(e),
        };
        let flag_byte = match buffer.read_u8() {
            Ok(v) => v,
            Err(e) => return Err(e),
        };
        let last_in_sequence_flag = PgsOdsSequenceFlag::from(flag_byte);

        // The declared object data length counts the embedded width and
        // height, which do not belong to the payload.
        let declared = match buffer.read_u24::<BigEndian>() {
            Ok(v) => v,
            Err(e) => return Err(e),
        };
        if declared < 4 {
            return Err(Error::EndOfData);
        }
        let object_data_length = declared - 4;

        let (width, height) = if last_in_sequence_flag == PgsOdsSequenceFlag::First
            || last_in_sequence_flag == PgsOdsSequenceFlag::Both {
            let width = match buffer.read_u16::<BigEndian>() {
                Ok(v) => v,
                Err(e) => return Err(e),
            };
            let height = match buffer.read_u16::<BigEndian>() {
                Ok(v) => v,
                Err(e) => return Err(e),
            };
            (width, height)
        } else {
            (0u16, 0u16)
        };

        let object_data = match buffer.read_into_vec(object_data_length) {
            Ok(v) => v,
            Err(e) => return Err(e),
        };

        Ok(
            PgsOdsSegment {
                header,
                object_id,
                object_version_number,
                last_in_sequence_flag,
                object_data_length,
                width,
                height,
                object_data,
            },
        )
    }
}

/// Payload-length law: a successfully parsed ODS whose sequence flag is
/// `First` or `Both` carries exactly the declared object data length less
/// four bytes of payload, and one whose flag is `Last` or `Unknown` has
/// width and height zero.
pub proof fn lemma_ods_payload(header: PgsSegmentHeader, data: Seq<u8>)
    requires
        spec_parse_ods(header, data) matches Ok(v),
    ensures
        ({
            let v = spec_parse_ods(header, data)->Ok_0;
            &&& (v.last_in_sequence_flag == PgsOdsSequenceFlag::First
                || v.last_in_sequence_flag == PgsOdsSequenceFlag::Both)
                ==> v.object_data.len() == spec_u24_be(data.subrange(4, 7)) - 4
            &&& (v.last_in_sequence_flag == PgsOdsSequenceFlag::Last
                || v.last_in_sequence_flag == PgsOdsSequenceFlag::Unknown) ==> v.width == 0
                && v.height == 0
        }),
{
}

} // verus!

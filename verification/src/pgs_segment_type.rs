//! The type tag of a segment in a Presentation Graphic Stream (PGS).

use vstd::prelude::*;

verus! {

/// The kind of a PGS segment, as carried by the type byte of its header.
#[derive(Debug, Clone, Copy, PartialEq, Eq, Structural)]
pub enum PgsSegmentType {
    /// Palette Definition Segment (tag byte 0x14).
    PDS,
    /// Object Definition Segment (tag byte 0x15).
    ODS,
    /// Presentation Composition Segment (tag byte 0x16).
    PCS,
    /// Window Definition Segment (tag byte 0x17).
    WDS,
    /// End of Display Set segment (tag byte 0x80).
    END,
    /// Any other tag byte: an error marker that fails stream parsing.
    ERR,
}

impl vstd::std_specs::convert::FromSpecImpl<u8> for PgsSegmentType {
    open spec fn obeys_from_spec() -> bool {
        true
    }

    open spec fn from_spec(value: u8) -> Self {
        spec_segment_type_of(value)
    }
}

/// The segment type denoted by a tag byte; unknown tags map to `ERR`.
pub open spec fn spec_segment_type_of(value: u8) -> PgsSegmentType {
    if value == 0x14 {
        PgsSegmentType::PDS
    } else if value == 0x15 {
        PgsSegmentType::ODS
    } else if value == 0x16 {
        PgsSegmentType::PCS
    } else if value == 0x17 {
        PgsSegmentType::WDS
    } else if value == 0x80 {
        PgsSegmentType::END
    } else {
        PgsSegmentType::ERR
    }
}

impl From<u8> for PgsSegmentType {
    /// Decodes the tag byte of a segment header.
    fn from(value: u8) -> (r: Self)
        ensures
            r == spec_segment_type_of(value),
    {
        match value {
            0x14 => PgsSegmentType::PDS,
            0x15 => PgsSegmentType::ODS,
            0x16 => PgsSegmentType::PCS,
            0x17 => PgsSegmentType::WDS,
            0x80 => PgsSegmentType::END,
            _ => PgsSegmentType::ERR,
        }
    }
}

} // verus!

//! The Presentation Composition Segment (PCS): how the subtitle graphics
//! are arranged on screen.

use vstd::prelude::*;

use crate::pgs_error::{Error, PgsResult};
use crate::pgs_memory_buffer::{spec_u16_be, BigEndian, PgsMemoryBuffer, ReadBytes};
use crate::pgs_read::PgsSeek;
use crate::pgs_segment_header::PgsSegmentHeader;

verus! {

/// Whether a composition object is cropped to a sub-rectangle.
#[derive(Debug, Clone, Copy, PartialEq, Eq, Structural)]
pub enum PgsPcsObjectCroppedFlag {
    /// The object is shown through a forced cropping window (flag byte
    /// 0x40); four cropping fields follow in the stream.
    ForceCroppedImage,
    /// No cropping (any other flag byte).
    Off,
}

/// The cropped flag denoted by a flag byte.
pub open spec fn spec_cropped_flag_of(value: u8) -> PgsPcsObjectCroppedFlag {
    if value == 0x40 {
        PgsPcsObjectCroppedFlag::ForceCroppedImage
    } else {
        PgsPcsObjectCroppedFlag::Off
    }
}

impl vstd::std_specs::convert::FromSpecImpl<u8> for PgsPcsObjectCroppedFlag {
    open spec fn obeys_from_spec() -> bool {
        true
    }

    open spec fn from_spec(value: u8) -> Self {
        spec_cropped_flag_of(value)
    }
}

impl From<u8> for PgsPcsObjectCroppedFlag {
    /// Decodes the cropped flag byte of a composition object.
    fn from(value: u8) -> (r: Self)
        ensures
            r == spec_cropped_flag_of(value),
    {
        match value {
            0x40 => PgsPcsObjectCroppedFlag::ForceCroppedImage,
            _ => PgsPcsObjectCroppedFlag::Off,
        }
    }
}

/// Whether a composition starts a new display, refreshes one, or updates
/// one.
#[derive(Debug, Clone, Copy, PartialEq, Eq, Structural)]
pub enum PgsPcsCompositionState {
    /// A new display (state byte 0x80).
    EpochStart,
    /// A display refresh boundary (state byte 0x40).
    AcquisitionPoint,
    /// A display update (any other state byte).
    Normal,
}

/// The composition state denoted by a state byte.
pub open spec fn spec_composition_state_of(value: u8) -> PgsPcsCompositionState {
    if value == 0x80 {
        PgsPcsCompositionState::EpochStart
    } else if value == 0x40 {
        PgsPcsCompositionState::AcquisitionPoint
    } else {
        PgsPcsCompositionState::Normal
    }
}

impl vstd::std_specs::convert::FromSpecImpl<u8> for PgsPcsCompositionState {
    open spec fn obeys_from_spec() -> bool {
        true
    }

    open spec fn from_spec(value: u8) -> Self {
        spec_composition_state_of(value)
    }
}

impl From<u8> for PgsPcsCompositionState {
    /// Decodes the composition state byte of a PCS.
    fn from(value: u8) -> (r: Self)
        ensures
            r == spec_composition_state_of(value),
    {
        match value {
            0x80 => PgsPcsCompositionState::EpochStart,
            0x40 => PgsPcsCompositionState::AcquisitionPoint,
            _ => PgsPcsCompositionState::Normal,
        }
    }
}

/// One composition object: a graphic placed in a window, with optional
/// cropping. The cropping fields are zero when the cropped flag is `Off`.
#[derive(Debug, Clone, Copy, PartialEq, Eq, Structural)]
pub struct PgsPcsSegmentCompositionObjects {
    /// The id of the object shown.
    pub object_id: u16,
    /// The id of the window the object is placed in.
    pub window_id: u8,
    /// Whether the object is cropped.
    pub object_cropped_flag: PgsPcsObjectCroppedFlag,
    /// The horizontal position of the object.
    pub object_horizontal_position: u16,
    /// The vertical position of the object.
    pub object_vertical_position: u16,
    /// The horizontal position of the cropping window.
    pub object_cropping_horizontal_position: u16,
    /// The vertical position of the cropping window.
    pub object_cropping_vertical_position: u16,
    /// The width of the cropping window.
    pub object_cropping_width: u16,
    /// The height of the cropping window.
    pub object_cropping_height_position: u16,
}

/// The mathematical content of a [`PgsPcsSegment`].
pub struct PcsSegmentView {
    /// The header of the segment.
    pub header: PgsSegmentHeader,
    /// The width of the video frame.
    pub width: u16,
    /// The height of the video frame.
    pub height: u16,
    /// The frame rate field; the stream byte is skipped, so this is
    /// always 0x10.
    pub frame_rate: u8,
    /// The number of this composition.
    pub composition_number: u16,
    /// The state of this composition.
    pub composition_state: PgsPcsCompositionState,
    /// The palette update flag.
    pub palette_update_flag: u8,
    /// The id of the palette in use.
    pub palette_id: u8,
    /// The declared number of composition objects.
    pub number_of_composition_objects: u8,
    /// The composition objects, in stream order.
    pub composition_objects: Seq<PgsPcsSegmentCompositionObjects>,
}

/// A Presentation Composition Segment: frame geometry, composition state,
/// and the objects composed on screen.
#[derive(Debug)]
pub struct PgsPcsSegment {
    /// The header of the segment.
    pub header: PgsSegmentHeader,
    /// The width of the video frame.
    pub width: u16,
    /// The height of the video frame.
    pub height: u16,
    /// The frame rate field; the stream byte is skipped, so this is
    /// always 0x10.
    pub frame_rate: u8,
    /// The number of this composition.
    pub composition_number: u16,
    /// The state of this composition.
    pub composition_state: PgsPcsCompositionState,
    /// The palette update flag.
    pub palette_update_flag: u8,
    /// The id of the palette in use.
    pub palette_id: u8,
    /// The declared number of composition objects.
    pub number_of_composition_objects: u8,
    /// The composition objects, in stream order.
    pub composition_objects: Vec<PgsPcsSegmentCompositionObjects>,
}

impl View for PgsPcsSegment {
    type V = PcsSegmentView;

    open spec fn view(&self) -> PcsSegmentView {
        PcsSegmentView {
            header: self.header,
            width: self.width,
            height: self.height,
            frame_rate: self.frame_rate,
            composition_number: self.composition_number,
            composition_state: self.composition_state,
            palette_update_flag: self.palette_update_flag,
            palette_id: self.palette_id,
            number_of_composition_objects: self.number_of_composition_objects,
            composition_objects: self.composition_objects@,
        }
    }
}

/// The run of `n` composition objects written at offset `pos` of `data`.
/// An object takes 8 bytes, or 16 when its cropped flag byte is 0x40;
/// too few bytes for the next object fail with `EndOfData`.
pub open spec fn spec_pcs_objects(data: Seq<u8>, pos: int, n: int) -> PgsResult<
    Seq<PgsPcsSegmentCompositionObjects>,
>
    decreases n,
{
    if n <= 0 {
        Ok(Seq::<PgsPcsSegmentCompositionObjects>::empty())
    } else if pos + 8 > data.len() {
        Err(Error::EndOfData)
    } else {
        let flag = spec_cropped_flag_of(data[pos + 3]);
        if flag == PgsPcsObjectCroppedFlag::ForceCroppedImage {
            if pos + 16 > data.len() {
                Err(Error::EndOfData)
            } else {
                let obj = PgsPcsSegmentCompositionObjects {
                    object_id: spec_u16_be(data.subrange(pos, pos + 2)),
                    window_id: data[pos + 2],
                    object_cropped_flag: flag,
                    object_horizontal_position: spec_u16_be(data.subrange(pos + 4, pos + 6)),
                    object_vertical_position: spec_u16_be(data.subrange(pos + 6, pos + 8)),
                    object_cropping_horizontal_position: spec_u16_be(
                        data.subrange(pos + 8, pos + 10),
                    ),
                    object_cropping_vertical_position: spec_u16_be(
                        data.subrange(pos + 10, pos + 12),
                    ),
                    object_cropping_width: spec_u16_be(data.subrange(pos + 12, pos + 14)),
                    object_cropping_height_position: spec_u16_be(
                        data.subrange(pos + 14, pos + 16),
                    ),
                };
                match spec_pcs_objects(data, pos + 16, n - 1) {
                    Ok(rest) => Ok(seq![obj] + rest),
                    Err(e) => Err(e),
                }
            }
        } else {
            let obj = PgsPcsSegmentCompositionObjects {
                object_id: spec_u16_be(data.subrange(pos, pos + 2)),
                window_id: data[pos + 2],
                object_cropped_flag: flag,
                object_horizontal_position: spec_u16_be(data.subrange(pos + 4, pos + 6)),
                object_vertical_position: spec_u16_be(data.subrange(pos + 6, pos + 8)),
                object_cropping_horizontal_position: 0u16,
                object_cropping_vertical_position: 0u16,
                object_cropping_width: 0u16,
                object_cropping_height_position: 0u16,
            };
            match spec_pcs_objects(data, pos + 8, n - 1) {
                Ok(rest) => Ok(seq![obj] + rest),
                Err(e) => Err(e),
            }
        }
    }
}

/// The PCS denoted by `data` under `header`:
/// - `data` shorter than the declared body length: `InvalidSegmentDataLength`;
/// - too few bytes for the fixed fields or for a composition object:
///   `EndOfData`;
/// - otherwise the fixed fields followed by the declared number of
///   composition objects.
pub open spec fn spec_parse_pcs(header: PgsSegmentHeader, data: Seq<u8>) -> PgsResult<
    PcsSegmentView,
> {
    if data.len() < header.segment_length {
        Err(Error::InvalidSegmentDataLength)
    } else if data.len() < 11 {
        Err(Error::EndOfData)
    } else {
        match spec_pcs_objects(data, 11, data[10] as int) {
            Ok(objs) => Ok(
                PcsSegmentView {
                    header,
                    width: spec_u16_be(data.subrange(0, 2)),
                    height: spec_u16_be(data.subrange(2, 4)),
                    frame_rate: 0x10u8,
                    composition_number: spec_u16_be(data.subrange(5, 7)),
                    composition_state: spec_composition_state_of(data[7]),
                    palette_update_flag: data[8],
                    palette_id: data[9],
                    number_of_composition_objects: data[10],
                    composition_objects: objs,
                },
            ),
            Err(e) => Err(e),
        }
    }
}

impl Default for PgsPcsSegment {
    /// The placeholder PCS: a placeholder header, the fixed frame rate,
    /// and no composition objects.
    fn default() -> (r: Self)
        ensures
            r@ == (PcsSegmentView {
                header: PgsSegmentHeader {
                    segment_type: crate::pgs_segment_type::PgsSegmentType::ERR,
                    segment_length: 0u16,
                    presentation_timestamp: 0u32,
                    decoding_timestamp: 0u32,
                },
                width: 0u16,
                height: 0u16,
                frame_rate: 0x10u8,
                composition_number: 0u16,
                composition_state: PgsPcsCompositionState::Normal,
                palette_update_flag: 0u8,
                palette_id: 0u8,
                number_of_composition_objects: 0u8,
                composition_objects: Seq::<PgsPcsSegmentCompositionObjects>::empty(),
            }),
    {
        let r = PgsPcsSegment {
            header: Default::default(),
            width: 0,
            height: 0,
            frame_rate: 0x10,
            composition_number: 0,
            composition_state: PgsPcsCompositionState::Normal,
            palette_update_flag: 0,
            palette_id: 0,
            number_of_composition_objects: 0,
            composition_objects: Vec::new(),
        };
        proof {
            assert(r.composition_objects@ =~= Seq::<PgsPcsSegmentCompositionObjects>::empty());
        }
        r
    }
}

impl Clone for PgsPcsSegment {
    /// Clones the segment; the clone has the same mathematical content.
    fn clone(&self) -> (r: Self)
        ensures
            r@ == self@,
    {
        let composition_objects = self.composition_objects.clone();
        proof {
            assert(composition_objects@ =~= self.composition_objects@);
        }
        PgsPcsSegment {
            header: self.header,
            width: self.width,
            height: self.height,
            frame_rate: self.frame_rate,
            composition_number: self.composition_number,
            composition_state: self.composition_state,
            palette_update_flag: self.palette_update_flag,
            palette_id: self.palette_id,
            number_of_composition_objects: self.number_of_composition_objects,
            composition_objects,
        }
    }
}

impl PgsPcsSegment {
    /// Parses a PCS body. The result agrees with [`spec_parse_pcs`] on
    /// `data`, both on success and in the error it reports.
    #[verifier::loop_isolation(false)]
    #[verifier::rlimit(60)]
    pub fn from_data(header: PgsSegmentHeader, data: &[u8]) -> (r: PgsResult<PgsPcsSegment>)
        ensures
            spec_parse_pcs(header, data@) matches Ok(v) ==> r matches Ok(seg) && seg@ == v,
            spec_parse_pcs(header, data@) matches Err(e) ==> r matches Err(e2) && e2 == e,
    {
        if data.len() < header.segment_length as usize {
            return Err(Error::InvalidSegmentDataLength);
        }
        let mut buffer: PgsMemoryBuffer = PgsMemoryBuffer::from_slice(data);
        let width = match buffer.read_u16::<BigEndian>() {
            Ok(v) => v,
            Err(e) => return Err(e),
        };
        let height = match buffer.read_u16::<BigEndian>() {
            Ok(v) => v,
            Err(e) => return Err(e),
        };
        // The frame rate byte of the stream is skipped; the field keeps
        // its fixed value.
        match buffer.read_u8() {
            Ok(_) => (),
            Err(e) => return Err(e),
        };
        let composition_number = match buffer.read_u16::<BigEndian>() {
            Ok(v) => v,
            Err(e) => return Err(e),
        };
        let state_byte = match buffer.read_u8() {
            Ok(v) => v,
            Err(e) => return Err(e),
        };
        let composition_state = PgsPcsCompositionState::from(state_byte);
        let palette_update_flag = match buffer.read_u8() {
            Ok(v) => v,
            Err(e) => return Err(e),
        };
        let palette_id = match buffer.read_u8() {
            Ok(v) => v,
            Err(e) => return Err(e),
        };
        let number_of_composition_objects = match buffer.read_u8() {
            Ok(v) => v,
            Err(e) => return Err(e),
        };

        let mut composition_objects: Vec<PgsPcsSegmentCompositionObjects> = Vec::new();
        let mut i: u8 = 0;
        let ghost n = number_of_composition_objects as int;
        while i < number_of_composition_objects
            invariant
                i <= number_of_composition_objects,
                n == number_of_composition_objects as int,
                data@.len() >= header.segment_length,
                data@.len() >= 11,
                buffer.stream() == data@,
                buffer.cursor() <= data@.len(),
                composition_objects@.len() == i as int,
                spec_pcs_objects(data@, 11, n) == (match spec_pcs_objects(
                    data@,
                    buffer.cursor(),
                    n - i,
                ) {
                    Ok(rest) => Ok::<_, Error>(composition_objects@ + rest),
                    Err(e) => Err::<Seq<PgsPcsSegmentCompositionObjects>, _>(e),
                }),
            decreases number_of_composition_objects - i,
        {
            let ghost pos0 = buffer.cursor();
            let object_id = match buffer.read_u16::<BigEndian>() {
                Ok(v) => v,
                Err(e) => return Err(e),
            };
            let window_id = match buffer.read_u8() {
                Ok(v) => v,
                Err(e) => return Err(e),
            };
            let flag_byte = match buffer.read_u8() {
                Ok(v) => v,
                Err(e) => return Err(e),
            };
            let object_cropped_flag = PgsPcsObjectCroppedFlag::from(flag_byte);
            let object_horizontal_position = match buffer.read_u16::<BigEndian>() {
                Ok(v) => v,
                Err(e) => return Err(e),
            };
            let object_vertical_position = match buffer.read_u16::<BigEndian>() {
                Ok(v) => v,
                Err(e) => return Err(e),
            };
            let obj = if object_cropped_flag == PgsPcsObjectCroppedFlag::ForceCroppedImage {
                let object_cropping_horizontal_position = match buffer.read_u16::<BigEndian>() {
                    Ok(v) => v,
                    Err(e) => return Err(e),
                };
                let object_cropping_vertical_position = match buffer.read_u16::<BigEndian>() {
                    Ok(v) => v,
                    Err(e) => return Err(e),
                };
                let object_cropping_width = match buffer.read_u16::<BigEndian>() {
                    Ok(v) => v,
                    Err(e) => return Err(e),
                };
                let object_cropping_height_position = match buffer.read_u16::<BigEndian>() {
                    Ok(v) => v,
                    Err(e) => return Err(e),
                };
                PgsPcsSegmentCompositionObjects {
                    object_id,
                    window_id,
                    object_cropped_flag,
                    object_horizontal_position,
                    object_vertical_position,
                    object_cropping_horizontal_position,
                    object_cropping_vertical_position,
                    object_cropping_width,
                    object_cropping_height_position,
                }
            } else {
                PgsPcsSegmentCompositionObjects {
                    object_id,
                    window_id,
                    object_cropped_flag,
                    object_horizontal_position,
                    object_vertical_position,
                    object_cropping_horizontal_position: 0,
                    object_cropping_vertical_position: 0,
                    object_cropping_width: 0,
                    object_cropping_height_position: 0,
                }
            };
            proof {
                assert(composition_objects@.push(obj) + (match spec_pcs_objects(
                    data@,
                    buffer.cursor(),
                    n - i - 1,
                ) {
                    Ok(rest) => rest,
                    Err(_) => Seq::empty(),
                }) =~= composition_objects@ + (seq![obj] + (match spec_pcs_objects(
                    data@,
                    buffer.cursor(),
                    n - i - 1,
                ) {
                    Ok(rest) => rest,
                    Err(_) => Seq::empty(),
                })));
            }
            composition_objects.push(obj);
            i = i + 1;
        }
        proof {
            assert(spec_pcs_objects(data@, buffer.cursor(), 0) == Ok::<
                Seq<PgsPcsSegmentCompositionObjects>,
                Error,
            >(Seq::empty()));
            assert(composition_objects@ + Seq::<PgsPcsSegmentCompositionObjects>::empty()
                =~= composition_objects@);
        }

        Ok(
            PgsPcsSegment {
                header,
                width,
                height,
                frame_rate: 0x10,
                composition_number,
                composition_state,
                palette_update_flag,
                palette_id,
                number_of_composition_objects,
                composition_objects,
            },
        )
    }
}

} // verus!

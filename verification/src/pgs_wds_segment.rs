//! The Window Definition Segment (WDS): the windows in which subtitle
//! graphics are placed on screen.

use vstd::prelude::*;

use crate::pgs_error::{Error, PgsResult};
use crate::pgs_memory_buffer::{spec_u16_be, BigEndian, PgsMemoryBuffer, ReadBytes};
use crate::pgs_read::PgsSeek;
use crate::pgs_segment_header::PgsSegmentHeader;

verus! {

/// One window definition: its id, position and size.
#[derive(Debug, Clone, Copy, PartialEq, Eq, Structural)]
pub struct PgsWdsSegmentWindowDefinition {
    /// The id of the window.
    pub window_id: u8,
    /// The horizontal position of the top-left corner.
    pub window_horizontal_position: u16,
    /// The vertical position of the top-left corner.
    pub window_vertical_position: u16,
    /// The width of the window.
    pub window_width: u16,
    /// The height of the window.
    pub window_height: u16,
}

/// The mathematical content of a [`PgsWdsSegment`].
pub struct WdsSegmentView {
    /// The header of the segment.
    pub header: PgsSegmentHeader,
    /// The declared number of windows.
    pub number_of_windows: u8,
    /// The window definitions, in stream order.
    pub windows: Seq<PgsWdsSegmentWindowDefinition>,
}

/// A Window Definition Segment: a count followed by that many windows.
#[derive(Debug)]
pub struct PgsWdsSegment {
    /// The header of the segment.
    pub header: PgsSegmentHeader,
    /// The declared number of windows.
    pub number_of_windows: u8,
    /// The window definitions, in stream order.
    pub windows: Vec<PgsWdsSegmentWindowDefinition>,
}

impl View for PgsWdsSegment {
    type V = WdsSegmentView;

    open spec fn view(&self) -> WdsSegmentView {
        WdsSegmentView {
            header: self.header,
            number_of_windows: self.number_of_windows,
            windows: self.windows@,
        }
    }
}

/// The window record written at offset `pos` of `data`: an 8-bit id
/// followed by four big-endian 16-bit fields.
pub open spec fn spec_window_at(data: Seq<u8>, pos: int) -> PgsWdsSegmentWindowDefinition {
    PgsWdsSegmentWindowDefinition {
        window_id: data[pos],
        window_horizontal_position: spec_u16_be(data.subrange(pos + 1, pos + 3)),
        window_vertical_position: spec_u16_be(data.subrange(pos + 3, pos + 5)),
        window_width: spec_u16_be(data.subrange(pos + 5, pos + 7)),
        window_height: spec_u16_be(data.subrange(pos + 7, pos + 9)),
    }
}

/// The WDS denoted by `data` under `header`:
/// - `data` shorter than the declared body length: `InvalidSegmentDataLength`;
/// - `data` too short for the window count it declares: `EndOfData`;
/// - otherwise the count byte followed by that many 9-byte window records.
pub open spec fn spec_parse_wds(header: PgsSegmentHeader, data: Seq<u8>) -> PgsResult<
    WdsSegmentView,
> {
    if data.len() < header.segment_length {
        Err(Error::InvalidSegmentDataLength)
    } else if data.len() < 1 {
        Err(Error::EndOfData)
    } else {
        let n = data[0];
        if 1 + 9 * (n as int) <= data.len() {
            Ok(
                WdsSegmentView {
                    header,
                    number_of_windows: n,
                    windows: Seq::new(n as nat, |i: int| spec_window_at(data, 1 + 9 * i)),
                },
            )
        } else {
            Err(Error::EndOfData)
        }
    }
}

impl Clone for PgsWdsSegment {
    /// Clones the segment; the clone has the same mathematical content.
    fn clone(&self) -> (r: Self)
        ensures
            r@ == self@,
    {
        let windows = self.windows.clone();
        proof {
            assert(windows@ =~= self.windows@);
        }
        PgsWdsSegment { header: self.header, number_of_windows: self.number_of_windows, windows }
    }
}

impl PgsWdsSegment {
    fn new(
        header: PgsSegmentHeader,
        number_of_windows: u8,
        windows: Vec<PgsWdsSegmentWindowDefinition>,
    ) -> (r: Self)
        ensures
            r@ == (WdsSegmentView { header, number_of_windows, windows: windows@ }),
    {
        PgsWdsSegment { header, number_of_windows, windows }
    }

    /// Parses a WDS body. The result agrees with [`spec_parse_wds`] on
    /// `data`, both on success and in the error it reports.
    pub fn from_data(header: PgsSegmentHeader, data: &[u8]) -> (r: PgsResult<PgsWdsSegment>)
        ensures
            spec_parse_wds(header, data@) matches Ok(v) ==> r matches Ok(seg) && seg@ == v,
            spec_parse_wds(header, data@) matches Err(e) ==> r matches Err(e2) && e2 == e,
    {
        if data.len() < header.segment_length as usize {
            return Err(Error::InvalidSegmentDataLength);
        }
        let mut buffer: PgsMemoryBuffer = PgsMemoryBuffer::from_slice(data);
        let number_of_windows = match buffer.read_u8() {
            Ok(v) => v,
            Err(e) => return Err(e),
        };
        let mut windows: Vec<PgsWdsSegmentWindowDefinition> = Vec::new();
        let mut i: u8 = 0;
        while i < number_of_windows
            invariant
                i <= number_of_windows,
                number_of_windows == data@[0],
                data@.len() >= header.segment_length,
                data@.len() >= 1,
                buffer.stream() == data@,
                buffer.cursor() == 1 + 9 * (i as int),
                buffer.cursor() <= data@.len(),
                windows@.len() == i as int,
                forall|j: int|
                    0 <= j < i as int ==> windows@[j] == spec_window_at(data@, 1 + 9 * j),
            decreases number_of_windows - i,
        {
            let window_id = match buffer.read_u8() {
                Ok(v) => v,
                Err(e) => return Err(e),
            };
            let window_horizontal_position = match buffer.read_u16::<BigEndian>() {
                Ok(v) => v,
                Err(e) => return Err(e),
            };
            let window_vertical_position = match buffer.read_u16::<BigEndian>() {
                Ok(v) => v,
                Err(e) => return Err(e),
            };
            let window_width = match buffer.read_u16::<BigEndian>() {
                Ok(v) => v,
                Err(e) => return Err(e),
            };
            let window_height = match buffer.read_u16::<BigEndian>() {
                Ok(v) => v,
                Err(e) => return Err(e),
            };
            windows.push(
                PgsWdsSegmentWindowDefinition {
                    window_id,
                    window_horizontal_position,
                    window_vertical_position,
                    window_width,
                    window_height,
                },
            );
            i = i + 1;
        }
        let ghost n = number_of_windows;
        proof {
            assert(windows@ =~= Seq::new(
                n as nat,
                |j: int| spec_window_at(data@, 1 + 9 * j),
            ));
        }
        Ok(PgsWdsSegment::new(header, number_of_windows, windows))
    }
}

} // verus!

//! The Palette Definition Segment (PDS): the colour palette used by the
//! subtitle graphics, as YCbCr plus transparency entries.

use vstd::prelude::*;

use crate::pgs_error::{Error, PgsResult};
use crate::pgs_memory_buffer::{PgsMemoryBuffer, ReadBytes};
use crate::pgs_read::PgsSeek;
use crate::pgs_segment_header::PgsSegmentHeader;

verus! {

/// One palette entry: its id, luminance (Y), chrominance red (Cr),
/// chrominance blue (Cb) and transparency (alpha).
#[derive(Debug, Clone, Copy, PartialEq, Eq, Structural)]
pub struct PgsPdsSegmentPaletteEntry {
    /// The id of the entry.
    pub palette_entry_id: u8,
    /// Luminance (Y).
    pub luminance: u8,
    /// Chrominance red (Cr).
    pub color_difference_red: u8,
    /// Chrominance blue (Cb).
    pub color_difference_blue: u8,
    /// Transparency (alpha).
    pub transparency: u8,
}

/// The mathematical content of a [`PgsPdsSegment`].
pub struct PdsSegmentView {
    /// The header of the segment.
    pub header: PgsSegmentHeader,
    /// The id of the palette.
    pub palette_id: u8,
    /// The version number of the palette.
    pub palette_version_number: u8,
    /// The palette entries, in stream order.
    pub palette_entries: Seq<PgsPdsSegmentPaletteEntry>,
}

/// A Palette Definition Segment: palette id and version, then a run of
/// 5-byte palette entries.
#[derive(Debug)]
pub struct PgsPdsSegment {
    /// The header of the segment.
    pub header: PgsSegmentHeader,
    /// The id of the palette.
    pub palette_id: u8,
    /// The version number of the palette.
    pub palette_version_number: u8,
    /// The palette entries, in stream order.
    pub palette_entries: Vec<PgsPdsSegmentPaletteEntry>,
}

impl View for PgsPdsSegment {
    type V = PdsSegmentView;

    open spec fn view(&self) -> PdsSegmentView {
        PdsSegmentView {
            header: self.header,
            palette_id: self.palette_id,
            palette_version_number: self.palette_version_number,
            palette_entries: self.palette_entries@,
        }
    }
}

/// The palette entry written at offset `pos` of `data`: id, Y, Cr, Cb,
/// alpha, one byte each.
pub open spec fn spec_palette_entry_at(data: Seq<u8>, pos: int) -> PgsPdsSegmentPaletteEntry {
    PgsPdsSegmentPaletteEntry {
        palette_entry_id: data[pos],
        luminance: data[pos + 1],
        color_difference_red: data[pos + 2],
        color_difference_blue: data[pos + 3],
        transparency: data[pos + 4],
    }
}

/// The number of palette entries a PDS body of `len` bytes yields: two
/// bytes of id and version, then two further bytes set aside, then five
/// bytes per entry, any shorter remainder dropped.
pub open spec fn spec_pds_entry_count(len: int) -> int {
    (len - 4) / 5
}

/// The PDS denoted by `data` under `header`:
/// - `data` shorter than the declared body length: `InvalidSegmentDataLength`;
/// - fewer than four bytes (id, version, and the two bytes the entry-count
///   rule sets aside): `EndOfData`;
/// - otherwise the palette id and version followed by the derived number
///   of 5-byte entries.
pub open spec fn spec_parse_pds(header: PgsSegmentHeader, data: Seq<u8>) -> PgsResult<
    PdsSegmentView,
> {
    if data.len() < header.segment_length {
        Err(Error::InvalidSegmentDataLength)
    } else if data.len() < 4 {
        Err(Error::EndOfData)
    } else {
        Ok(
            PdsSegmentView {
                header,
                palette_id: data[0],
                palette_version_number: data[1],
                palette_entries: Seq::new(
                    spec_pds_entry_count(data.len() as int) as nat,
                    |i: int| spec_palette_entry_at(data, 2 + 5 * i),
                ),
            },
        )
    }
}

impl PgsPdsSegment {
    fn new(
        header: PgsSegmentHeader,
        palette_id: u8,
        palette_version_number: u8,
        palette_entries: Vec<PgsPdsSegmentPaletteEntry>,
    ) -> (r: Self)
        ensures
            r@ == (PdsSegmentView {
                header,
                palette_id,
                palette_version_number,
                palette_entries: palette_entries@,
            }),
    {
        PgsPdsSegment { header, palette_id, palette_version_number, palette_entries }
    }

    /// Parses a PDS body. The result agrees with [`spec_parse_pds`] on
    /// `data`, both on success and in the error it reports.
    pub fn from_data(header: PgsSegmentHeader, data: &[u8]) -> (r: PgsResult<PgsPdsSegment>)
        ensures
            spec_parse_pds(header, data@) matches Ok(v) ==> r matches Ok(seg) && seg@ == v,
            spec_parse_pds(header, data@) matches Err(e) ==> r matches Err(e2) && e2 == e,
    {
        if data.len() < header.segment_length as usize {
            return Err(Error::InvalidSegmentDataLength);
        }
        let mut buffer: PgsMemoryBuffer = PgsMemoryBuffer::from_slice(data);
        let palette_id = match buffer.read_u8() {
            Ok(v) => v,
            Err(e) => return Err(e),
        };
        let palette_version_number = match buffer.read_u8() {
            Ok(v) => v,
            Err(e) => return Err(e),
        };

        // The remaining bytes of the body hold the palette entries; the
        // entry count sets two further bytes aside before dividing by the
        // entry size.
        let remaining = data.len() - 2;
        if remaining < 2 {
            return Err(Error::EndOfData);
        }
        let palette_count = (remaining - 2) / 5;
        proof {
            vstd::arithmetic::div_mod::lemma_fundamental_div_mod(data@.len() - 4, 5);
        }

        let mut palette_entries: Vec<PgsPdsSegmentPaletteEntry> = Vec::new();
        let mut i: usize = 0;
        while i < palette_count
            invariant
                i <= palette_count,
                palette_count == spec_pds_entry_count(data@.len() as int),
                data@.len() >= 4,
                2 + 5 * (palette_count as int) <= data@.len(),
                buffer.stream() == data@,
                buffer.cursor() == 2 + 5 * (i as int),
                palette_entries@.len() == i as int,
                forall|j: int|
                    0 <= j < i as int ==> palette_entries@[j] == spec_palette_entry_at(
                        data@,
                        2 + 5 * j,
                    ),
            decreases palette_count - i,
        {
            let palette_entry_id = match buffer.read_u8() {
                Ok(v) => v,
                Err(e) => return Err(e),
            };
            let luminance = match buffer.read_u8() {
                Ok(v) => v,
                Err(e) => return Err(e),
            };
            let color_difference_red = match buffer.read_u8() {
                Ok(v) => v,
                Err(e) => return Err(e),
            };
            let color_difference_blue = match buffer.read_u8() {
                Ok(v) => v,
                Err(e) => return Err(e),
            };
            let transparency = match buffer.read_u8() {
                Ok(v) => v,
                Err(e) => return Err(e),
            };
            palette_entries.push(
                PgsPdsSegmentPaletteEntry {
                    palette_entry_id,
                    luminance,
                    color_difference_red,
                    color_difference_blue,
                    transparency,
                },
            );
            i = i + 1;
        }
        let ghost count = palette_count;
        proof {
            assert(palette_entries@ =~= Seq::new(
                count as nat,
                |j: int| spec_palette_entry_at(data@, 2 + 5 * j),
            ));
        }
        Ok(PgsPdsSegment::new(header, palette_id, palette_version_number, palette_entries))
    }
}

impl Clone for PgsPdsSegment {
    /// Clones the segment; the clone has the same mathematical content.
    fn clone(&self) -> (r: Self)
        ensures
            r@ == self@,
    {
        let palette_entries = self.palette_entries.clone();
        proof {
            assert(palette_entries@ =~= self.palette_entries@);
        }
        PgsPdsSegment {
            header: self.header,
            palette_id: self.palette_id,
            palette_version_number: self.palette_version_number,
            palette_entries,
        }
    }
}

/// Entry-count law: when the entry area of a successfully parsed PDS body
/// is an exact multiple of the 5-byte entry size, the number of entries
/// times five, plus the two bytes the count rule sets aside, equals the
/// body length that remains after the palette id and version.
pub proof fn lemma_pds_entry_count(header: PgsSegmentHeader, data: Seq<u8>)
    requires
        spec_parse_pds(header, data) matches Ok(v),
        (data.len() - 4) % 5 == 0,
    ensures
        (spec_parse_pds(header, data)->Ok_0).palette_entries.len() * 5 + 2 == data.len() - 2,
{
    vstd::arithmetic::div_mod::lemma_fundamental_div_mod(data.len() - 4, 5);
}

} // verus!

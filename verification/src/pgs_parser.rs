//! The stream parser: drives the segment parsers over a whole PGS byte
//! stream and folds the parsed segments into display sets.

use vstd::prelude::*;

use crate::pgs_display_set::{DisplaySetView, PgsDisplaySet};
use crate::pgs_error::{Error, PgsResult};
use crate::pgs_memory_buffer::{PgsMemoryBuffer, ReadBytes};
use crate::pgs_ods_segment::PgsOdsSegment;
use crate::pgs_pcs_segment::PgsPcsSegment;
use crate::pgs_pds_segment::PgsPdsSegment;
use crate::pgs_read::PgsSeek;
use crate::pgs_segment::{PgsSegment, SegmentView};
use crate::pgs_segment_header::{spec_parse_segment_header, PgsSegmentHeader};
use crate::pgs_segment_type::PgsSegmentType;
use crate::pgs_wds_segment::PgsWdsSegment;

verus! {

/// The segment written at offset `pos` of `data`, together with the
/// offset just after it:
/// - too few bytes for the 13-byte header, or for the body the header
///   declares: `EndOfData`;
/// - a bad magic number, or an unknown segment type tag: `ReadInvalidSegment`;
/// - an END segment carries no body; every other segment is parsed from
///   the `segment_length` bytes after the header.
pub open spec fn spec_read_segment(data: Seq<u8>, pos: int) -> PgsResult<(SegmentView, int)> {
    if pos + 13 > data.len() {
        Err(Error::EndOfData)
    } else {
        match spec_parse_segment_header(data.subrange(pos, pos + 13)) {
            Err(e) => Err(e),
            Ok(header) => {
                if header.segment_type == PgsSegmentType::ERR {
                    Err(Error::ReadInvalidSegment)
                } else if header.segment_type == PgsSegmentType::END {
                    Ok((SegmentView::End, pos + 13))
                } else if pos + 13 + header.segment_length > data.len() {
                    Err(Error::EndOfData)
                } else {
                    let body = data.subrange(pos + 13, pos + 13 + header.segment_length);
                    let endpos = pos + 13 + header.segment_length;
                    if header.segment_type == PgsSegmentType::PCS {
                        match crate::pgs_pcs_segment::spec_parse_pcs(header, body) {
                            Ok(v) => Ok((SegmentView::Pcs(v), endpos)),
                            Err(e) => Err(e),
                        }
                    } else if header.segment_type == PgsSegmentType::WDS {
                        match crate::pgs_wds_segment::spec_parse_wds(header, body) {
                            Ok(v) => Ok((SegmentView::Wds(v), endpos)),
                            Err(e) => Err(e),
                        }
                    } else if header.segment_type == PgsSegmentType::PDS {
                        match crate::pgs_pds_segment::spec_parse_pds(header, body) {
                            Ok(v) => Ok((SegmentView::Pds(v), endpos)),
                            Err(e) => Err(e),
                        }
                    } else {
                        match crate::pgs_ods_segment::spec_parse_ods(header, body) {
                            Ok(v) => Ok((SegmentView::Ods(v), endpos)),
                            Err(e) => Err(e),
                        }
                    }
                }
            },
        }
    }
}

/// The segments written from offset `pos` to the end of `data`, parsed
/// one after the other. A stream must hold at least one segment; any
/// parse failure discards all of them.
pub open spec fn spec_parse_stream(data: Seq<u8>, pos: int) -> PgsResult<Seq<SegmentView>>
    decreases data.len() - pos,
{
    match spec_read_segment(data, pos) {
        Err(e) => Err(e),
        Ok((seg, pos2)) => {
            if pos2 >= data.len() {
                Ok(seq![seg])
            } else {
                match spec_parse_stream(data, pos2) {
                    Ok(rest) => Ok(seq![seg] + rest),
                    Err(e) => Err(e),
                }
            }
        },
    }
}

/// The offsets at which the segments of a stream begin, from offset
/// `pos` on; empty where parsing fails at once.
pub open spec fn spec_segment_starts(data: Seq<u8>, pos: int) -> Seq<int>
    decreases data.len() - pos,
{
    match spec_read_segment(data, pos) {
        Err(_) => Seq::<int>::empty(),
        Ok((seg, pos2)) => {
            if pos2 >= data.len() {
                seq![pos]
            } else {
                seq![pos] + spec_segment_starts(data, pos2)
            }
        },
    }
}

/// The display set with no segment in any slot.
pub open spec fn spec_empty_display_set() -> DisplaySetView {
    DisplaySetView { pcs: None, wds: None, pds: None, ods: None }
}

/// A display set under construction with `seg` applied: the segment
/// takes its slot, the latest one seen winning. An END segment leaves
/// the set as it is; the fold handles it.
pub open spec fn spec_apply_segment(ds: DisplaySetView, seg: SegmentView) -> DisplaySetView {
    match seg {
        SegmentView::Pcs(p) => DisplaySetView { pcs: Some(p), ..ds },
        SegmentView::Wds(w) => DisplaySetView { wds: Some(w), ..ds },
        SegmentView::Pds(p) => DisplaySetView { pds: Some(p), ..ds },
        SegmentView::Ods(o) => DisplaySetView { ods: Some(o), ..ds },
        SegmentView::End => ds,
    }
}

/// The display sets denoted by `segs` from index `i` on, with the set
/// under construction `cur` and the sets `out` already emitted: each END
/// emits a snapshot of the accumulator and starts a fresh one; segments
/// gathered after the last END are discarded.
pub open spec fn spec_fold_display_sets(
    segs: Seq<SegmentView>,
    i: int,
    cur: DisplaySetView,
    out: Seq<DisplaySetView>,
) -> Seq<DisplaySetView>
    decreases segs.len() - i,
{
    if i < 0 || i >= segs.len() {
        out
    } else {
        match segs[i] {
            SegmentView::End => spec_fold_display_sets(
                segs,
                i + 1,
                spec_empty_display_set(),
                out.push(cur),
            ),
            _ => spec_fold_display_sets(segs, i + 1, spec_apply_segment(cur, segs[i]), out),
        }
    }
}

/// The display sets denoted by a segment sequence.
pub open spec fn spec_display_sets(segs: Seq<SegmentView>) -> Seq<DisplaySetView> {
    spec_fold_display_sets(segs, 0, spec_empty_display_set(), Seq::<DisplaySetView>::empty())
}

/// A parser for whole PGS streams: it holds the parsed segments and the
/// display sets folded from them.
#[derive(Debug)]
pub struct PgsParser {
    segments: Vec<PgsSegment>,
    display_sets: Vec<PgsDisplaySet>,
}

impl PgsParser {
    /// The mathematical content of the parsed segments, in stream order.
    pub closed spec fn segment_views(&self) -> Seq<SegmentView> {
        self.segments@.map_values(|s: PgsSegment| s@)
    }

    /// The mathematical content of the display sets, in END order.
    pub closed spec fn display_set_views(&self) -> Seq<DisplaySetView> {
        self.display_sets@.map_values(|d: PgsDisplaySet| d@)
    }

    fn new() -> (r: Self)
        ensures
            r.segment_views() == Seq::<SegmentView>::empty(),
            r.display_set_views() == Seq::<DisplaySetView>::empty(),
    {
        let r = PgsParser { segments: Vec::new(), display_sets: Vec::new() };
        proof {
            assert(r.segment_views() =~= Seq::<SegmentView>::empty());
            assert(r.display_set_views() =~= Seq::<DisplaySetView>::empty());
        }
        r
    }

    /// Returns the display sets folded from the parsed stream.
    pub fn get_display_sets(&self) -> (r: &Vec<PgsDisplaySet>)
        ensures
            r@.map_values(|d: PgsDisplaySet| d@) == self.display_set_views(),
    {
        &self.display_sets
    }

    /// Reads one segment from the buffer: a 13-byte header, then — for
    /// every kind but END — the body the header declares.
    fn read_segment(buffer: &mut PgsMemoryBuffer) -> (r: PgsResult<PgsSegment>)
        ensures
            final(buffer).stream() == old(buffer).stream(),
            spec_read_segment(old(buffer).stream(), old(buffer).cursor()) matches Ok(sp) ==> (
            r matches Ok(seg) && seg@ == sp.0 && final(buffer).cursor() == sp.1 && old(
                buffer,
            ).cursor() < sp.1 <= old(buffer).stream().len()),
            spec_read_segment(old(buffer).stream(), old(buffer).cursor()) matches Err(e) ==> (
            r matches Err(e2) && e2 == e),
    {
        let hdr_bytes: [u8; 13] = match buffer.read_bytes::<13>() {
            Ok(v) => v,
            Err(e) => return Err(e),
        };
        let header = match PgsSegmentHeader::from_data(hdr_bytes.as_slice()) {
            Ok(v) => v,
            Err(e) => return Err(e),
        };

        if header.segment_type == PgsSegmentType::ERR {
            return Err(Error::ReadInvalidSegment);
        }
        if header.segment_type == PgsSegmentType::END {
            return Ok(PgsSegment::End);
        }

        let body: Vec<u8> = match buffer.read_into_vec(header.segment_length as u32) {
            Ok(v) => v,
            Err(e) => return Err(e),
        };

        match header.segment_type {
            PgsSegmentType::PCS => match PgsPcsSegment::from_data(header, body.as_slice()) {
                Ok(seg) => Ok(PgsSegment::Pcs(seg)),
                Err(e) => Err(e),
            },
            PgsSegmentType::WDS => match PgsWdsSegment::from_data(header, body.as_slice()) {
                Ok(seg) => Ok(PgsSegment::Wds(seg)),
                Err(e) => Err(e),
            },
            PgsSegmentType::PDS => match PgsPdsSegment::from_data(header, body.as_slice()) {
                Ok(seg) => Ok(PgsSegment::Pds(seg)),
                Err(e) => Err(e),
            },
            PgsSegmentType::ODS => match PgsOdsSegment::from_data(header, body.as_slice()) {
                Ok(seg) => Ok(PgsSegment::Ods(seg)),
                Err(e) => Err(e),
            },
            _ => Err(Error::ReadInvalidSegment),
        }
    }

    /// Parses every segment of the buffer, collecting them in stream
    /// order. A failure discards all of them.
    #[verifier::loop_isolation(false)]
    fn parse_inner(&mut self, buffer: &mut PgsMemoryBuffer) -> (r: PgsResult<()>)
        requires
            old(self).segment_views() == Seq::<SegmentView>::empty(),
            old(self).display_set_views() == Seq::<DisplaySetView>::empty(),
            old(buffer).cursor() == 0,
        ensures
            final(self).display_set_views() == Seq::<DisplaySetView>::empty(),
            spec_parse_stream(old(buffer).stream(), 0) matches Ok(vs) ==> (r matches Ok(u)
                && final(self).segment_views() == vs),
            spec_parse_stream(old(buffer).stream(), 0) matches Err(e) ==> (r matches Err(e2)
                && e2 == e),
    {
        let ghost data = buffer.stream();
        let ghost target = spec_parse_stream(data, 0);
        let buffer_len = match buffer.len() {
            Ok(v) => v,
            Err(e) => return Err(e),
        };
        if buffer_len == 0 {
            return Err(Error::EndOfData);
        }
        let mut p: usize = 0;
        while p < buffer_len
            invariant
                buffer.stream() == data,
                buffer_len == data.len(),
                p as int == buffer.cursor(),
                buffer.cursor() <= data.len(),
                self.display_set_views() == Seq::<DisplaySetView>::empty(),
                p < buffer_len ==> target == (match spec_parse_stream(data, p as int) {
                    Ok(rest) => Ok::<Seq<SegmentView>, Error>(self.segment_views() + rest),
                    Err(e) => Err::<Seq<SegmentView>, Error>(e),
                }),
                p >= buffer_len ==> target == Ok::<Seq<SegmentView>, Error>(
                    self.segment_views(),
                ),
            decreases buffer_len - p,
        {
            let ghost views0 = self.segment_views();
            let segment = match Self::read_segment(buffer) {
                Ok(v) => v,
                Err(e) => return Err(e),
            };
            self.segments.push(segment);
            proof {
                assert(self.segment_views() =~= views0.push(self.segments@.last()@));
                assert(views0 + seq![self.segments@.last()@] =~= self.segment_views());
                if buffer.cursor() < data.len() {
                    match spec_parse_stream(data, buffer.cursor()) {
                        Ok(rest) => {
                            assert(views0 + (seq![self.segments@.last()@] + rest)
                                =~= self.segment_views() + rest);
                        },
                        Err(_) => {},
                    }
                }
            }
            p = match buffer.pos() {
                Ok(v) => v,
                Err(e) => return Err(e),
            };
        }
        Ok(())
    }

    /// Folds the parsed segments into display sets: each non-END segment
    /// takes its slot in the set under construction, the latest one
    /// winning, and each END emits a snapshot of the set and starts a
    /// fresh one. Segments after the last END are discarded.
    #[verifier::loop_isolation(false)]
    fn create_display_sets(&mut self) -> (r: PgsResult<()>)
        requires
            old(self).display_set_views() == Seq::<DisplaySetView>::empty(),
        ensures
            r matches Ok(u),
            final(self).segments == old(self).segments,
            final(self).display_set_views() == spec_display_sets(old(self).segment_views()),
    {
        let ghost views = self.segment_views();
        let ghost target = spec_display_sets(views);
        let mut ds = PgsDisplaySet::new();
        let mut i: usize = 0;
        let n = self.segments.len();
        while i < n
            invariant
                n == self.segments@.len(),
                i <= n,
                self.segments == old(self).segments,
                views == self.segment_views(),
                target == spec_fold_display_sets(
                    views,
                    i as int,
                    ds@,
                    self.display_set_views(),
                ),
            decreases n - i,
        {
            let ghost out0 = self.display_set_views();
            match &self.segments[i] {
                PgsSegment::Pcs(pcs) => {
                    ds.pcs = Some(pcs.clone());
                },
                PgsSegment::Wds(wds) => {
                    ds.wds = Some(wds.clone());
                },
                PgsSegment::Ods(ods) => {
                    ds.ods = Some(ods.clone());
                },
                PgsSegment::Pds(pds) => {
                    ds.pds = Some(pds.clone());
                },
                PgsSegment::End => {
                    let snapshot = ds.clone();
                    self.display_sets.push(snapshot);
                    ds.clean();
                    proof {
                        assert(self.display_set_views() =~= out0.push(
                            self.display_sets@.last()@,
                        ));
                    }
                },
            };
            i = i + 1;
        }
        Ok(())
    }

    /// Parses a whole PGS stream and folds its segments into display
    /// sets. The segments and the display sets are exactly those the
    /// stream denotes; any parse failure is reported unchanged and
    /// nothing is kept.
    pub fn parse(data: &[u8]) -> (r: PgsResult<PgsParser>)
        ensures
            spec_parse_stream(data@, 0) matches Ok(vs) ==> (r matches Ok(parser)
                && parser.segment_views() == vs && parser.display_set_views()
                == spec_display_sets(vs)),
            spec_parse_stream(data@, 0) matches Err(e) ==> (r matches Err(e2) && e2 == e),
    {
        let mut parser = PgsParser::new();
        let mut buffer = PgsMemoryBuffer::from_slice(data);
        match parser.parse_inner(&mut buffer) {
            Ok(_) => (),
            Err(e) => return Err(e),
        };
        match parser.create_display_sets() {
            Ok(_) => (),
            Err(e) => return Err(e),
        };
        Ok(parser)
    }
}

/// Magic-number law: in a stream that parses successfully, every
/// segment begins with the bytes 0x50 0x47 ("PG").
pub proof fn lemma_stream_magic(data: Seq<u8>, pos: int)
    requires
        0 <= pos,
        spec_parse_stream(data, pos) is Ok,
    ensures
        forall|k: int|
            0 <= k < spec_segment_starts(data, pos).len() ==> {
                let st = #[trigger] spec_segment_starts(data, pos)[k];
                &&& 0 <= st && st + 1 < data.len()
                &&& data[st] == 0x50
                &&& data[st + 1] == 0x47
            },
    decreases data.len() - pos,
{
    let starts = spec_segment_starts(data, pos);
    match spec_read_segment(data, pos) {
        Err(_) => {
            assert(false);
        },
        Ok((seg, pos2)) => {
            assert(spec_parse_segment_header(data.subrange(pos, pos + 13)) is Ok);
            assert(crate::pgs_memory_buffer::spec_u16_be(
                data.subrange(pos, pos + 13).subrange(0, 2),
            ) == crate::pgs_segment_header::PG);
            assert(data.subrange(pos, pos + 13).subrange(0, 2) =~= data.subrange(pos, pos + 2));
            assert(data[pos] == 0x50 && data[pos + 1] == 0x47);
            if pos2 < data.len() {
                lemma_stream_magic(data, pos2);
                assert forall|k: int| 0 <= k < starts.len() implies {
                    let st = #[trigger] starts[k];
                    &&& 0 <= st && st + 1 < data.len()
                    &&& data[st] == 0x50
                    &&& data[st + 1] == 0x47
                } by {
                    if k > 0 {
                        assert(starts[k] == spec_segment_starts(data, pos2)[k - 1]);
                    }
                }
            }
        },
    }
}

proof fn lemma_fold_keeps_out(
    segs: Seq<SegmentView>,
    i: int,
    cur: DisplaySetView,
    out: Seq<DisplaySetView>,
)
    requires
        forall|j: int| i <= j < segs.len() ==> !(#[trigger] segs[j] is End),
    ensures
        spec_fold_display_sets(segs, i, cur, out) == out,
    decreases segs.len() - i,
{
    if 0 <= i < segs.len() {
        lemma_fold_keeps_out(segs, i + 1, spec_apply_segment(cur, segs[i]), out);
    }
}

/// No-END law: a stream without an END segment produces no display set.
pub proof fn lemma_no_end_no_display_sets(segs: Seq<SegmentView>)
    requires
        forall|j: int| 0 <= j < segs.len() ==> !(#[trigger] segs[j] is End),
    ensures
        spec_display_sets(segs) == Seq::<DisplaySetView>::empty(),
{
    lemma_fold_keeps_out(segs, 0, spec_empty_display_set(), Seq::<DisplaySetView>::empty());
}

proof fn lemma_fold_common_prefix(
    segs: Seq<SegmentView>,
    suffix: Seq<SegmentView>,
    i: int,
    cur: DisplaySetView,
    out: Seq<DisplaySetView>,
)
    requires
        0 <= i <= segs.len(),
        forall|j: int| 0 <= j < suffix.len() ==> !(#[trigger] suffix[j] is End),
    ensures
        spec_fold_display_sets(segs + suffix, i, cur, out) == spec_fold_display_sets(
            segs,
            i,
            cur,
            out,
        ),
    decreases segs.len() - i,
{
    if i == segs.len() {
        assert forall|j: int| i <= j < (segs + suffix).len() implies !(#[trigger] (segs
            + suffix)[j] is End) by {
            assert((segs + suffix)[j] == suffix[j - segs.len()]);
        }
        lemma_fold_keeps_out(segs + suffix, i, cur, out);
    } else {
        assert((segs + suffix)[i] == segs[i]);
        match segs[i] {
            SegmentView::End => {
                lemma_fold_common_prefix(
                    segs,
                    suffix,
                    i + 1,
                    spec_empty_display_set(),
                    out.push(cur),
                );
            },
            _ => {
                lemma_fold_common_prefix(
                    segs,
                    suffix,
                    i + 1,
                    spec_apply_segment(cur, segs[i]),
                    out,
                );
            },
        }
    }
}

/// No-flush law: segments that follow the last END of a stream are
/// discarded; they produce no partial display set.
pub proof fn lemma_trailing_segments_discarded(
    segs: Seq<SegmentView>,
    suffix: Seq<SegmentView>,
)
    requires
        forall|j: int| 0 <= j < suffix.len() ==> !(#[trigger] suffix[j] is End),
    ensures
        spec_display_sets(segs + suffix) == spec_display_sets(segs),
{
    lemma_fold_common_prefix(
        segs,
        suffix,
        0,
        spec_empty_display_set(),
        Seq::<DisplaySetView>::empty(),
    );
}

} // verus!

//! A parsed PGS segment of any kind.

use vstd::prelude::*;

use crate::pgs_ods_segment::{OdsSegmentView, PgsOdsSegment};
use crate::pgs_pcs_segment::{PcsSegmentView, PgsPcsSegment};
use crate::pgs_pds_segment::{PdsSegmentView, PgsPdsSegment};
use crate::pgs_wds_segment::{PgsWdsSegment, WdsSegmentView};

verus! {

/// The mathematical content of a [`PgsSegment`].
pub enum SegmentView {
    /// A Presentation Composition Segment.
    Pcs(PcsSegmentView),
    /// A Window Definition Segment.
    Wds(WdsSegmentView),
    /// A Palette Definition Segment.
    Pds(PdsSegmentView),
    /// An Object Definition Segment.
    Ods(OdsSegmentView),
    /// An End of Display Set segment.
    End,
}

/// One parsed segment of a PGS stream.
#[derive(Debug)]
pub enum PgsSegment {
    /// A Presentation Composition Segment.
    Pcs(PgsPcsSegment),
    /// A Window Definition Segment.
    Wds(PgsWdsSegment),
    /// A Palette Definition Segment.
    Pds(PgsPdsSegment),
    /// An Object Definition Segment.
    Ods(PgsOdsSegment),
    /// An End of Display Set segment.
    End,
}

impl View for PgsSegment {
    type V = SegmentView;

    open spec fn view(&self) -> SegmentView {
        match self {
            PgsSegment::Pcs(pcs) => SegmentView::Pcs(pcs@),
            PgsSegment::Wds(wds) => SegmentView::Wds(wds@),
            PgsSegment::Pds(pds) => SegmentView::Pds(pds@),
            PgsSegment::Ods(ods) => SegmentView::Ods(ods@),
            PgsSegment::End => SegmentView::End,
        }
    }
}

} // verus!

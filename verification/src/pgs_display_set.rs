//! The display set: the group of segments between two END markers that
//! together compose one subtitle frame.

use vstd::prelude::*;

use crate::pgs_decode_rle::{
    decode_rle, spec_decode_rle, spec_matrix_view, RleOutcome,
};
use crate::pgs_error::{Error, PgsResult};
use crate::pgs_ods_segment::{OdsSegmentView, PgsOdsSegment};
use crate::pgs_pcs_segment::{PcsSegmentView, PgsPcsSegment};
use crate::pgs_pds_segment::{PdsSegmentView, PgsPdsSegment};
use crate::pgs_wds_segment::{PgsWdsSegment, WdsSegmentView};

verus! {

/// How far a display set has been assembled.
#[derive(Debug, Clone, Copy, PartialEq, Eq, Structural)]
pub enum PgsDisplaySetState {
    /// Some needed segment is missing, and the set is not an empty frame.
    Incomplete,
    /// All four of PCS, WDS, PDS and ODS are present.
    Complete,
    /// PCS and WDS are present but PDS or ODS is missing: a frame that
    /// clears the screen.
    EmptyFrame,
}

/// The mathematical content of a [`PgsDisplaySet`].
pub struct DisplaySetView {
    /// The presentation composition segment, if one was seen.
    pub pcs: Option<PcsSegmentView>,
    /// The window definition segment, if one was seen.
    pub wds: Option<WdsSegmentView>,
    /// The palette definition segment, if one was seen.
    pub pds: Option<PdsSegmentView>,
    /// The object definition segment, if one was seen.
    pub ods: Option<OdsSegmentView>,
}

/// The state a display set with the given segments is in.
pub open spec fn spec_display_set_state(v: DisplaySetView) -> PgsDisplaySetState {
    if v.pcs is Some && v.wds is Some {
        if v.pds is Some && v.ods is Some {
            PgsDisplaySetState::Complete
        } else {
            PgsDisplaySetState::EmptyFrame
        }
    } else {
        PgsDisplaySetState::Incomplete
    }
}

/// The segments gathered for one subtitle frame: at most one each of
/// PCS, WDS, PDS and ODS.
#[derive(Debug)]
pub struct PgsDisplaySet {
    /// The presentation composition segment, if one was seen.
    pub pcs: Option<PgsPcsSegment>,
    /// The window definition segment, if one was seen.
    pub wds: Option<PgsWdsSegment>,
    /// The palette definition segment, if one was seen.
    pub pds: Option<PgsPdsSegment>,
    /// The object definition segment, if one was seen.
    pub ods: Option<PgsOdsSegment>,
}

impl View for PgsDisplaySet {
    type V = DisplaySetView;

    open spec fn view(&self) -> DisplaySetView {
        DisplaySetView {
            pcs: match &self.pcs {
                Some(pcs) => Some(pcs@),
                None => None,
            },
            wds: match &self.wds {
                Some(wds) => Some(wds@),
                None => None,
            },
            pds: match &self.pds {
                Some(pds) => Some(pds@),
                None => None,
            },
            ods: match &self.ods {
                Some(ods) => Some(ods@),
                None => None,
            },
        }
    }
}

impl Clone for PgsDisplaySet {
    /// Clones the display set; the clone has the same mathematical
    /// content.
    fn clone(&self) -> (r: Self)
        ensures
            r@ == self@,
    {
        PgsDisplaySet {
            pcs: match &self.pcs {
                Some(pcs) => Some(pcs.clone()),
                None => None,
            },
            wds: match &self.wds {
                Some(wds) => Some(wds.clone()),
                None => None,
            },
            pds: match &self.pds {
                Some(pds) => Some(pds.clone()),
                None => None,
            },
            ods: match &self.ods {
                Some(ods) => Some(ods.clone()),
                None => None,
            },
        }
    }
}

impl PgsDisplaySet {
    /// Creates an empty display set, with no segment in any slot.
    pub fn new() -> (r: Self)
        ensures
            r@ == (DisplaySetView { pcs: None, wds: None, pds: None, ods: None }),
    {
        PgsDisplaySet { pcs: None, wds: None, pds: None, ods: None }
    }

    /// Empties every slot, so that the set can gather the next frame.
    pub(crate) fn clean(&mut self)
        ensures
            final(self)@ == (DisplaySetView { pcs: None, wds: None, pds: None, ods: None }),
    {
        self.pcs = None;
        self.wds = None;
        self.pds = None;
        self.ods = None;
    }

    /// Reports the state of the display set: `Complete` when all four
    /// segments are present, `EmptyFrame` when only PCS and WDS are, and
    /// `Incomplete` otherwise.
    pub fn state(&self) -> (r: PgsDisplaySetState)
        ensures
            r == spec_display_set_state(self@),
    {
        if self.pcs.is_some() && self.wds.is_some() {
            if self.pds.is_some() && self.ods.is_some() {
                return PgsDisplaySetState::Complete;
            }
            return PgsDisplaySetState::EmptyFrame;
        }
        PgsDisplaySetState::Incomplete
    }

    /// Borrows the raw run-length-encoded image data of the ODS. Fails
    /// with [`Error::IncompleteDisplaySet`] unless the set is complete.
    pub fn get_rle_image(&self) -> (r: PgsResult<&Vec<u8>>)
        ensures
            spec_display_set_state(self@) == PgsDisplaySetState::Complete ==> (r matches Ok(v)
                && v@ == self@.ods->Some_0.object_data),
            spec_display_set_state(self@) != PgsDisplaySetState::Complete ==> (r matches Err(e)
                && e == Error::IncompleteDisplaySet),
    {
        if self.state() != PgsDisplaySetState::Complete {
            return Err(Error::IncompleteDisplaySet);
        }
        match &self.ods {
            Some(ods) => Ok(&ods.object_data),
            None => Err(Error::IncompleteDisplaySet),
        }
    }

    /// Decodes the RLE image of the ODS through the palette of the PDS,
    /// in grayscale or ARGB form. Fails with
    /// [`Error::IncompleteDisplaySet`] unless the set is complete, and
    /// with [`Error::EndOfData`] when the payload ends inside a code.
    /// A complete set's payload must not paint outside its matrix.
    pub fn get_decoded_image(&self, gray: bool) -> (r: PgsResult<Vec<Vec<u32>>>)
        requires
            spec_display_set_state(self@) == PgsDisplaySetState::Complete ==> !(spec_decode_rle(
                self@.ods->Some_0.object_data,
                self@.ods->Some_0.width as nat,
                self@.ods->Some_0.height as nat,
                self@.pds->Some_0.palette_entries,
                gray,
            ) matches RleOutcome::Overrun),
        ensures
            spec_display_set_state(self@) != PgsDisplaySetState::Complete ==> (r matches Err(e)
                && e == Error::IncompleteDisplaySet),
            spec_display_set_state(self@) == PgsDisplaySetState::Complete ==> {
                &&& spec_decode_rle(
                    self@.ods->Some_0.object_data,
                    self@.ods->Some_0.width as nat,
                    self@.ods->Some_0.height as nat,
                    self@.pds->Some_0.palette_entries,
                    gray,
                ) matches RleOutcome::Done(m) ==> (r matches Ok(px) && spec_matrix_view(px@)
                    == m)
                &&& spec_decode_rle(
                    self@.ods->Some_0.object_data,
                    self@.ods->Some_0.width as nat,
                    self@.ods->Some_0.height as nat,
                    self@.pds->Some_0.palette_entries,
                    gray,
                ) matches RleOutcome::Truncated ==> (r matches Err(e) && e == Error::EndOfData)
            },
    {
        if self.state() != PgsDisplaySetState::Complete {
            return Err(Error::IncompleteDisplaySet);
        }
        match (&self.pds, &self.ods) {
            (Some(pds), Some(ods)) => decode_rle(pds, ods, gray),
            _ => Err(Error::IncompleteDisplaySet),
        }
    }
}

} // verus!

//! Parser and decoder for Presentation Graphic Stream (PGS) subtitle data,
//! the palette-indexed, run-length-encoded bitmap format carried on Blu-ray
//! discs. The crate turns a byte stream into typed segments (PCS, WDS, PDS,
//! ODS, END), groups them into display sets, and decodes each complete
//! display set into a pixel matrix, in ARGB or grayscale form.

mod pgs_decode_rle;
mod pgs_display_set;
mod pgs_error;
mod pgs_memory_buffer;
mod pgs_ods_segment;
mod pgs_parser;
mod pgs_pcs_segment;
mod pgs_pds_segment;
mod pgs_read;
mod pgs_segment;
mod pgs_segment_header;
mod pgs_segment_type;
mod pgs_wds_segment;

pub use pgs_decode_rle::{
    byte_to_int, calc_blue, calc_gray, calc_green, calc_red, decode_rle, get_argb,
    get_argb_color, get_gray_color, get_pixel_color, lemma_calc_gray_formula,
    lemma_calc_gray_opaque_white, lemma_calc_gray_transparent_black, lemma_color_conversion_pure,
    lemma_decoded_image_dimensions, lemma_palette_lookup_default_white,
    lemma_rle_all_zero_payload, spec_bit_len, spec_calc_blue, spec_calc_gray, spec_calc_green,
    spec_calc_red, spec_clamp_u8, spec_decode_rle, spec_decode_rle_from, spec_get_argb,
    spec_get_argb_color, spec_get_gray_color, spec_get_pixel_color, spec_matrix_view,
    spec_round24, spec_run, spec_write_pixel, spec_zero_matrix, RleOutcome, COEF_BLUE_CB,
    COEF_GREEN_CB, COEF_GREEN_CR, COEF_RED_CR, PIXEL_SCALE,
};
pub use pgs_display_set::{
    spec_display_set_state, DisplaySetView, PgsDisplaySet, PgsDisplaySetState,
};
pub use pgs_error::{Error, PgsResult};
pub use pgs_memory_buffer::{
    spec_u16_be, spec_u16_le, spec_u24_be, spec_u24_le, spec_u32_be, spec_u32_le, BigEndian,
    ByteOrder, LittleEndian, PgsMemoryBuffer, ReadBytes,
};
pub use pgs_ods_segment::{
    lemma_ods_payload, spec_parse_ods, spec_sequence_flag_of, OdsSegmentView, PgsOdsSegment,
    PgsOdsSequenceFlag,
};
pub use pgs_parser::{
    lemma_no_end_no_display_sets, lemma_stream_magic, lemma_trailing_segments_discarded,
    spec_apply_segment, spec_display_sets, spec_empty_display_set, spec_fold_display_sets,
    spec_parse_stream, spec_read_segment, spec_segment_starts, PgsParser,
};
pub use pgs_pcs_segment::{
    spec_composition_state_of, spec_cropped_flag_of, spec_parse_pcs, spec_pcs_objects,
    PcsSegmentView, PgsPcsCompositionState, PgsPcsObjectCroppedFlag, PgsPcsSegment,
    PgsPcsSegmentCompositionObjects,
};
pub use pgs_pds_segment::{
    lemma_pds_entry_count, spec_palette_entry_at, spec_parse_pds, spec_pds_entry_count,
    PdsSegmentView, PgsPdsSegment, PgsPdsSegmentPaletteEntry,
};
pub use pgs_read::{PgsRead, PgsSeek};
pub use pgs_segment::{PgsSegment, SegmentView};
pub use pgs_segment_header::{
    spec_parse_segment_header, PgsSegmentHeader, PG, PGS_SEGMENT_HEADER_LENGTH,
};
pub use pgs_segment_type::{spec_segment_type_of, PgsSegmentType};
pub use pgs_wds_segment::{
    spec_parse_wds, spec_window_at, PgsWdsSegment, PgsWdsSegmentWindowDefinition, WdsSegmentView,
};

//! Error types shared by every layer of the crate.

use vstd::prelude::*;

verus! {

/// The closed set of failures that parsing or decoding can report.
///
/// Variants:
/// - `EndOfData`: a read asked for more bytes than the source still holds.
/// - `InvalidInputArray`: a fixed-size slice conversion failed.
/// - `ReadInvalidSegment`: a segment header carries the wrong magic number,
///   or an unknown segment type tag was met while reading a stream.
/// - `InvalidSegmentDataLength`: a segment body is shorter than its header
///   declares.
/// - `IncompleteDisplaySet`: an image accessor was invoked on a display set
///   that is not complete.
#[derive(Debug, Clone, Copy, PartialEq, Eq, Structural)]
pub enum Error {
    EndOfData,
    InvalidInputArray,
    ReadInvalidSegment,
    InvalidSegmentDataLength,
    IncompleteDisplaySet,
}

/// The result type used throughout the crate.
pub type PgsResult<T> = core::result::Result<T, Error>;

} // verus!

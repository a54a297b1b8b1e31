//! Traits for sequential, seekable access to an in-memory byte source.

use vstd::prelude::*;

use crate::pgs_error::{Error, PgsResult};
use crate::pgs_memory_buffer::ReadBytes;

verus! {

/// Seekable access to a byte source.
///
/// A source holds a fixed sequence of bytes, `stream()`, and a read cursor,
/// `cursor()`. Seeking past the end is allowed; reads made there fail.
pub trait PgsSeek: Sized {
    /// The bytes held by the source.
    spec fn stream(&self) -> Seq<u8>;

    /// The current read position, counted from the start of `stream()`.
    spec fn cursor(&self) -> int;

    /// Moves the cursor to `to`, which may lie past the end of the stream.
    fn seek(&mut self, to: usize) -> (r: PgsResult<usize>)
        ensures
            final(self).stream() == old(self).stream(),
            final(self).cursor() == to as int,
            r == Ok::<usize, Error>(to),
    ;

    /// Reports the current cursor position.
    fn pos(&mut self) -> (r: PgsResult<usize>)
        ensures
            *final(self) == *old(self),
            r matches Ok(p) && p as int == old(self).cursor(),
    ;

    /// Reports the total length of the stream.
    fn len(&self) -> (r: PgsResult<usize>)
        ensures
            r matches Ok(n) && n as int == self.stream().len(),
    ;

    /// True when the source holds at least one byte.
    fn is_empty(&self) -> (r: bool)
        ensures
            r == (self.stream().len() > 0),
    {
        match self.len() {
            Ok(n) => n > 0,
            Err(_) => false,
        }
    }
}

/// A source that can both be read with [`ReadBytes`] and seeked with
/// [`PgsSeek`].
pub trait PgsRead: ReadBytes {

}

} // verus!

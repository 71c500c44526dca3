//! The state of an iterator over the whitespace-separated documents of one
//! buffer, and the decisions of each step.
//!
//! A step reads the input into a buffer the first time, skips whitespace
//! from the current offset, stops at the end of the buffer, and otherwise
//! hands the rest of the buffer to the parser; the offset moves past what
//! the parser read only when it succeeds.
use vstd::prelude::*;
use crate::whitespace::{skip_whitespace, skips_to};

verus! {

/// Iteration state: the offset of the next unread byte, and the length of
/// the buffer once the input has been read into one.
pub struct LoadsIterState {
    offset: usize,
    buffer_len: Option<usize>,
}

impl View for LoadsIterState {
    /// `(offset, buffer length if the buffer has been read)`.
    type V = (usize, Option<usize>);

    closed spec fn view(&self) -> (usize, Option<usize>) {
        (self.offset, self.buffer_len)
    }
}

/// Where the next document of `s` starts when reading resumes at `offset`:
/// `None` when only whitespace is left.
pub open spec fn next_start(s: Seq<u8>, offset: int, r: Option<usize>) -> bool {
    match r {
        None => skips_to(s, offset, s.len() as int),
        Some(start) => skips_to(s, offset, start as int) && start < s.len(),
    }
}

impl LoadsIterState {
    /// Before the buffer is read nothing has been consumed; afterwards the
    /// offset stays within the buffer.
    pub open spec fn wf(&self) -> bool {
        match self@.1 {
            None => self@.0 == 0,
            Some(len) => self@.0 <= len,
        }
    }

    /// A fresh iterator: nothing read, nothing consumed.
    pub fn new() -> (s: Self)
        ensures
            s@ == (0usize, None::<usize>),
            s.wf(),
    {
        LoadsIterState { offset: 0, buffer_len: None }
    }

    /// The offset of the next unread byte.
    pub fn offset(&self) -> (r: usize)
        ensures
            r == self@.0,
    {
        self.offset
    }

    /// Whether the input still has to be read into a buffer (the first step).
    pub fn needs_buffer(&self) -> (r: bool)
        ensures
            r == (self@.1 is None),
    {
        self.buffer_len.is_none()
    }

    /// The length of the buffer that the input was read into.
    pub fn buffer_len(&self) -> (r: usize)
        requires
            self@.1 is Some,
        ensures
            r == self@.1.unwrap(),
    {
        match self.buffer_len {
            Some(len) => len,
            None => 0,
        }
    }

    /// Records that the input was read into a buffer of `len` bytes.
    pub fn attach_buffer(&mut self, len: usize)
        requires
            old(self).wf(),
            old(self)@.1 is None,
        ensures
            final(self)@ == (old(self)@.0, Some(len)),
            final(self)@.0 == 0,
            final(self).wf(),
    {
        self.buffer_len = Some(len);
    }

    /// Where the next document starts in `buffer`: the first byte from the
    /// offset on that is not whitespace, or `None` (the end of iteration)
    /// when only whitespace is left. The state does not change: the skipped
    /// whitespace is consumed only together with the document after it.
    pub fn next_document(&self, buffer: &[u8]) -> (r: Option<usize>)
        requires
            self.wf(),
            self@.1 == Some(buffer@.len() as usize),
        ensures
            next_start(buffer@, self@.0 as int, r),
            r matches Some(start) ==> self@.0 <= start,
    {
        let stop = skip_whitespace(buffer, self.offset);
        if stop == buffer.len() {
            None
        } else {
            Some(stop)
        }
    }

    /// Records that the parser read `bytes_read` bytes of the document that
    /// starts at `start`: reading resumes right after them.
    pub fn consumed(&mut self, start: usize, bytes_read: usize)
        requires
            old(self).wf(),
            old(self)@.1 is Some,
            start <= old(self)@.1.unwrap(),
            bytes_read <= old(self)@.1.unwrap() - start,
        ensures
            final(self)@ == ((start + bytes_read) as usize, old(self)@.1),
            final(self).wf(),
    {
        self.offset = start + bytes_read;
    }
}

/// Reading never moves backwards: a document is found at or after the
/// offset, so consuming it leaves the offset no smaller, and strictly larger
/// when the parser read anything.
pub proof fn lemma_progress(s: Seq<u8>, offset: int, start: usize, bytes_read: usize)
    requires
        next_start(s, offset, Some(start)),
    ensures
        offset <= start + bytes_read,
        bytes_read > 0 ==> offset < start + bytes_read,
{
}

/// A document that the parser read to the end of the buffer is the last
/// one: the step after consuming it ends the iteration.
pub proof fn lemma_last_document(s: Seq<u8>, start: usize, bytes_read: usize)
    requires
        start + bytes_read == s.len(),
    ensures
        next_start(s, start + bytes_read, None),
{
}

/// The start of the next document is determined by the buffer and the
/// offset alone.
pub proof fn lemma_next_start_unique(s: Seq<u8>, offset: int, a: Option<usize>, b: Option<usize>)
    requires
        next_start(s, offset, a),
        next_start(s, offset, b),
    ensures
        a == b,
{
    match (a, b) {
        (Some(x), Some(y)) => crate::whitespace::lemma_skip_unique(s, offset, x as int, y as int),
        (Some(x), None) => crate::whitespace::lemma_skip_unique(s, offset, x as int, s.len() as int),
        (None, Some(y)) => crate::whitespace::lemma_skip_unique(s, offset, y as int, s.len() as int),
        (None, None) => {},
    }
}

} // verus!

//! Whitespace between the documents of a multi-document buffer.
use vstd::prelude::*;

verus! {

/// The bytes that count as ASCII whitespace: space, horizontal tab, line
/// feed, form feed and carriage return (the set of `u8::is_ascii_whitespace`).
pub open spec fn is_ws(b: u8) -> bool {
    b == 0x20u8 || b == 0x09u8 || b == 0x0Au8 || b == 0x0Cu8 || b == 0x0Du8
}

/// `stop` is where skipping whitespace in `s` from `from` ends: every byte in
/// `[from, stop)` is whitespace, and `stop` is either the end of `s` or the
/// position of a byte that is not whitespace.
pub open spec fn skips_to(s: Seq<u8>, from: int, stop: int) -> bool {
    &&& from <= stop <= s.len()
    &&& forall|i: int| from <= i < stop ==> is_ws(#[trigger] s[i])
    &&& (stop < s.len() ==> !is_ws(s[stop]))
}

/// Whether `b` is ASCII whitespace.
pub fn is_ascii_whitespace(b: u8) -> (r: bool)
    ensures
        r == is_ws(b),
{
    b == 0x20u8 || b == 0x09u8 || b == 0x0Au8 || b == 0x0Cu8 || b == 0x0Du8
}

/// Skips the whitespace of `buffer` that starts at `offset` and returns the
/// position where it ends.
pub fn skip_whitespace(buffer: &[u8], offset: usize) -> (stop: usize)
    requires
        offset <= buffer@.len(),
    ensures
        skips_to(buffer@, offset as int, stop as int),
{
    let mut pos: usize = offset;
    while pos < buffer.len()
        invariant
            offset <= pos <= buffer@.len(),
            forall|i: int| offset <= i < pos ==> is_ws(#[trigger] buffer@[i]),
        decreases buffer@.len() - pos,
    {
        if !is_ascii_whitespace(buffer[pos]) {
            return pos;
        }
        pos = pos + 1;
    }
    pos
}

/// Skipping whitespace ends at one place only: two stops for the same start
/// are equal.
pub proof fn lemma_skip_unique(s: Seq<u8>, from: int, a: int, b: int)
    requires
        skips_to(s, from, a),
        skips_to(s, from, b),
    ensures
        a == b,
{
    if a < b {
        assert(is_ws(s[a]));
    } else if b < a {
        assert(is_ws(s[b]));
    }
}

/// Skipping whitespace again from where it stopped goes nowhere.
pub proof fn lemma_skip_idempotent(s: Seq<u8>, from: int, stop: int)
    requires
        skips_to(s, from, stop),
    ensures
        skips_to(s, stop, stop),
{
}

/// Skipping from a later start inside the same run of whitespace stops at
/// the same place.
pub proof fn lemma_skip_from_inside(s: Seq<u8>, from: int, mid: int, stop: int)
    requires
        skips_to(s, from, stop),
        from <= mid <= stop,
    ensures
        skips_to(s, mid, stop),
{
}

} // verus!

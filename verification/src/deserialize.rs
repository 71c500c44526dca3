//! How a buffer is read: three two-byte documents are answered at once, the
//! rest goes to the full parser.
use vstd::prelude::*;

verus! {

/// What reading a buffer starts with.
#[derive(Clone, Copy, Debug, PartialEq, Eq, Structural)]
pub enum Dispatch {
    /// The buffer is `[]`: an empty list, two bytes read.
    EmptyList,
    /// The buffer is `{}`: an empty dict, two bytes read.
    EmptyDict,
    /// The buffer is `""`: the empty string, two bytes read.
    EmptyStr,
    /// Anything else: the buffer goes to the full parser.
    Parse,
}

/// The bytes that a document answered at once takes up.
pub const FAST_PATH_BYTES_READ: usize = 2;

/// `s` is the two bytes `a`, `b`.
pub open spec fn is_pair(s: Seq<u8>, a: u8, b: u8) -> bool {
    s.len() == 2 && s[0] == a && s[1] == b
}

/// Which way a buffer is read.
pub open spec fn spec_dispatch(s: Seq<u8>) -> Dispatch {
    if is_pair(s, 0x5Bu8, 0x5Du8) {
        Dispatch::EmptyList
    } else if is_pair(s, 0x7Bu8, 0x7Du8) {
        Dispatch::EmptyDict
    } else if is_pair(s, 0x22u8, 0x22u8) {
        Dispatch::EmptyStr
    } else {
        Dispatch::Parse
    }
}

/// Decides how `buffer` is read: `[]`, `{}` and `""` (exactly, with nothing
/// around them) are answered at once; every other buffer is parsed.
pub fn dispatch_buffer(buffer: &[u8]) -> (d: Dispatch)
    ensures
        d == spec_dispatch(buffer@),
        d != Dispatch::Parse ==> buffer@.len() == FAST_PATH_BYTES_READ,
        (d == Dispatch::EmptyList) == (buffer@ =~= seq![0x5Bu8, 0x5Du8]),
        (d == Dispatch::EmptyDict) == (buffer@ =~= seq![0x7Bu8, 0x7Du8]),
        (d == Dispatch::EmptyStr) == (buffer@ =~= seq![0x22u8, 0x22u8]),
{
    proof {
        lemma_dispatch_exact(buffer@);
    }
    if buffer.len() == 2 {
        let first = buffer[0];
        let second = buffer[1];
        if first == 0x5Bu8 && second == 0x5Du8 {
            return Dispatch::EmptyList;
        } else if first == 0x7Bu8 && second == 0x7Du8 {
            return Dispatch::EmptyDict;
        } else if first == 0x22u8 && second == 0x22u8 {
            return Dispatch::EmptyStr;
        }
    }
    Dispatch::Parse
}

/// A document answered at once is the whole buffer: reading it leaves
/// nothing behind.
pub proof fn lemma_fast_path_reads_all(s: Seq<u8>)
    requires
        spec_dispatch(s) != Dispatch::Parse,
    ensures
        s.len() == FAST_PATH_BYTES_READ,
{
}

/// Each empty document is answered at once exactly when the buffer is that
/// document's two bytes and nothing else; a buffer that only begins like
/// one (`[1`, `"a`, `{}` followed by more) goes to the parser.
pub proof fn lemma_dispatch_exact(s: Seq<u8>)
    ensures
        (spec_dispatch(s) == Dispatch::EmptyList) == (s =~= seq![0x5Bu8, 0x5Du8]),
        (spec_dispatch(s) == Dispatch::EmptyDict) == (s =~= seq![0x7Bu8, 0x7Du8]),
        (spec_dispatch(s) == Dispatch::EmptyStr) == (s =~= seq![0x22u8, 0x22u8]),
        (spec_dispatch(s) == Dispatch::Parse) == !(s =~= seq![0x5Bu8, 0x5Du8]
            || s =~= seq![0x7Bu8, 0x7Du8] || s =~= seq![0x22u8, 0x22u8]),
{
    assert(seq![0x5Bu8, 0x5Du8].len() == 2);
    assert(seq![0x7Bu8, 0x7Du8].len() == 2);
    assert(seq![0x22u8, 0x22u8].len() == 2);
}

/// The parser receives every buffer whose first two bytes do not form a
/// whole empty document, and every buffer of another length.
pub proof fn lemma_dispatch_parses_rest(s: Seq<u8>)
    requires
        s.len() != 2 || !((s[0] == 0x5Bu8 && s[1] == 0x5Du8) || (s[0] == 0x7Bu8 && s[1]
            == 0x7Du8) || (s[0] == 0x22u8 && s[1] == 0x22u8)),
    ensures
        spec_dispatch(s) == Dispatch::Parse,
{
    lemma_dispatch_exact(s);
}

} // verus!

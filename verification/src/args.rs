//! The arguments that the constructors of the extension types accept.
use vstd::prelude::*;

verus! {

/// Whether a constructor call is accepted: exactly one positional argument
/// and no keyword arguments. Every other call raises `TypeError`.
pub fn accepts_single_argument(positional: isize, has_keywords: bool) -> (r: bool)
    ensures
        r == (positional == 1 && !has_keywords),
{
    positional == 1 && !has_keywords
}

} // verus!

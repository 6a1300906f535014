//! Text that the views show, derived from the state.

use vstd::prelude::*;
use crate::text::{last_segment, last_segment_of};

verus! {

/// Last `/`-separated segment of a path, as a list row shows it.
pub fn strip_directory(path: &String) -> (r: String)
    ensures
        r@ == last_segment(path@, false),
{
    last_segment_of(path.as_str(), false)
}

} // verus!

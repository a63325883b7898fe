//! Defaults for fields of level data that the host may omit.

use vstd::prelude::*;

verus! {

/// The colour a ring is drawn with when the level data gives none.
pub fn default_color() -> (r: String)
    ensures
        r@ == "black"@,
{
    String::from_str("black")
}

} // verus!

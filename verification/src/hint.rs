//! Branch-prediction hints taken from `omango_util`.

use vstd::prelude::*;

verus! {

/// `omango_util::hint::unlikely` marks the branch taken on `true` as the cold
/// one and hands its argument back unchanged, so a test written through it
/// decides exactly as the bare condition would.
pub assume_specification[ omango_util::hint::unlikely ](b: bool) -> (r: bool)
    ensures
        r == b,
;

} // verus!

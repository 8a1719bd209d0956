//! Royalty arithmetic.  Every cut is computed with checked operations; a
//! computation that cannot be carried out exactly is reported as an
//! arithmetic overflow before any value moves.

use vstd::prelude::*;

use crate::types::{Price, ROYALTY_DENOMINATOR};

verus! {

/// The marketplace's cut of `value` at `royalty` basis points.
pub open spec fn spec_cut(value: Price, royalty: u16) -> int {
    value * royalty / (ROYALTY_DENOMINATOR as int)
}

/// The cut is computable: the product fits in the price type and the cut
/// does not exceed the value it is taken from.
pub open spec fn spec_cut_ok(value: Price, royalty: u16) -> bool {
    &&& value * royalty <= u128::MAX
    &&& spec_cut(value, royalty) <= value
}

/// Computes the marketplace's cut, or reports that it cannot be computed.
pub fn royalty_cut(value: Price, royalty: u16) -> (r: Option<Price>)
    ensures
        r matches Some(c) ==> spec_cut_ok(value, royalty) && c == spec_cut(value, royalty),
        r is None ==> !spec_cut_ok(value, royalty),
{
    match value.checked_mul(royalty as u128) {
        Some(product) => {
            let cut = product / ROYALTY_DENOMINATOR;
            if cut <= value {
                Some(cut)
            } else {
                None
            }
        },
        None => None,
    }
}

} // verus!

//! Feature 0x0001 IFeatureSet: enumerate the full feature table.

use crate::hidpp::protocol::{be16, be16_of, param_of, Report};
use vstd::prelude::*;

verus! {

/// A getCount reply: the number of features besides IRoot.
pub fn parse_feature_count(rep: &Report) -> (r: u8)
    ensures
        r == param_of(rep@, 0),
{
    rep.param(0)
}

/// A getFeatureId reply: `(feature id, feature type)`.
pub fn parse_feature_id(rep: &Report) -> (r: (u16, u8))
    ensures
        r == (be16_of(rep@, 0), param_of(rep@, 2)),
{
    (be16(rep.param(0), rep.param(1)), rep.param(2))
}

} // verus!

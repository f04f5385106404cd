//! Feature 0x0000 IRoot: feature discovery and ping.

use crate::hidpp::protocol::{param_of, Report};
use vstd::prelude::*;

verus! {

/// The getFeature parameters for `feature_id`: the id big-endian, then 0.
pub fn get_feature_params(feature_id: u16) -> (r: [u8; 3])
    ensures
        r@ == seq![(feature_id / 256) as u8, (feature_id % 256) as u8, 0u8],
{
    let hi = (feature_id >> 8u16) as u8;
    let lo = (feature_id & 0xFFu16) as u8;
    assert(feature_id >> 8u16 == feature_id / 256) by (bit_vector);
    assert(feature_id & 0xFFu16 == feature_id % 256) by (bit_vector);
    let r = [hi, lo, 0u8];
    assert(r@ =~= seq![(feature_id / 256) as u8, (feature_id % 256) as u8, 0u8]);
    r
}

/// A getFeature reply: `(featureIndex, featureType, featureVersion)`, or
/// `None` when the index is 0 (the feature is absent).
pub fn parse_get_feature(rep: &Report) -> (r: Option<(u8, u8, u8)>)
    ensures
        r == (if param_of(rep@, 0) == 0 {
            None
        } else {
            Some((param_of(rep@, 0), param_of(rep@, 1), param_of(rep@, 2)))
        }),
{
    let idx = rep.param(0);
    if idx == 0 {
        None
    } else {
        Some((idx, rep.param(1), rep.param(2)))
    }
}

/// The getProtocolVersion (ping) parameters: two zero bytes and a ping value.
pub fn ping_params() -> (r: [u8; 3])
    ensures
        r@ == seq![0u8, 0u8, 0x5Au8],
{
    let r = [0u8, 0u8, 0x5Au8];
    assert(r@ =~= seq![0u8, 0u8, 0x5Au8]);
    r
}

/// A getProtocolVersion reply: `(major, minor)`.
pub fn parse_ping(rep: &Report) -> (r: (u8, u8))
    ensures
        r == (param_of(rep@, 0), param_of(rep@, 1)),
{
    (rep.param(0), rep.param(1))
}

} // verus!

//! Cross-fade support: configuration checking and the per-pixel blend.

use vstd::prelude::*;
use crate::general::RayError;

verus! {

/// The files a cross-fade runs over, checked to be enough to blend.
pub struct LerpConfig {
    pub filepaths: Vec<String>,
}

impl LerpConfig {
    /// Accept the file list exactly when it holds at least two entries:
    /// a blend needs a pair.
    pub fn new(filepaths: Vec<String>) -> (r: Result<LerpConfig, RayError>)
        ensures
            filepaths@.len() >= 2 <==> r is Ok,
            r matches Ok(c) ==> c.filepaths@ == filepaths@,
            r matches Err(e) ==> e == RayError::NotEnoughInputs,
    {
        if filepaths.len() < 2 {
            return Err(RayError::NotEnoughInputs);
        }
        Ok(LerpConfig { filepaths })
    }
}

/// One channel halfway between two samples: the lower-to-higher gap
/// halved and added, and nothing subtracted when the second sample is
/// the darker (the blend never darkens the first image).
pub open spec fn half_lerp_channel_s(a: u16, b: u16) -> u16 {
    if b >= a {
        (a + (b - a) / 2) as u16
    } else {
        a
    }
}

/// The pixel halfway between two pixels, channel by channel.
pub fn half_lerp(p1: [u16; 3], p2: [u16; 3]) -> (r: [u16; 3])
    ensures
        r[0] == half_lerp_channel_s(p1[0], p2[0]),
        r[1] == half_lerp_channel_s(p1[1], p2[1]),
        r[2] == half_lerp_channel_s(p1[2], p2[2]),
{
    [
        half_lerp_channel(p1[0], p2[0]),
        half_lerp_channel(p1[1], p2[1]),
        half_lerp_channel(p1[2], p2[2]),
    ]
}

fn half_lerp_channel(a: u16, b: u16) -> (r: u16)
    ensures
        r == half_lerp_channel_s(a, b),
{
    if b >= a {
        a + (b - a) / 2
    } else {
        a
    }
}

} // verus!

//! The region gate: the box of longitudes and latitudes inside which the
//! forward transform applies its distortion.
use vstd::prelude::*;
use crate::ieee::{less, lemma_strictly_between};

verus! {

/// Bit pattern of the double nearest 7366 / 100, the western edge.
pub const LON_MIN: u64 = 0x4052_6a3d_70a3_d70a;

/// Bit pattern of the double nearest 13505 / 100, the eastern edge.
pub const LON_MAX: u64 = 0x4060_e199_9999_999a;

/// Bit pattern of the double nearest 386 / 100, the southern edge.
pub const LAT_MIN: u64 = 0x400e_e147_ae14_7ae1;

/// Bit pattern of the double nearest 5355 / 100, the northern edge.
pub const LAT_MAX: u64 = 0x404a_c666_6666_6666;

/// The point lies strictly inside the box, by IEEE-754 comparison: a point
/// on an edge, a NaN or a negative zero lies outside.
pub open spec fn inside(lon: u64, lat: u64) -> bool {
    less(LON_MIN, lon) && less(lon, LON_MAX) && less(LAT_MIN, lat) && less(lat, LAT_MAX)
}

/// Whether the forward transform distorts the point with bit patterns
/// `lon` and `lat`; outside the box it leaves the point as it is.
pub fn in_region(lon: u64, lat: u64) -> (r: bool)
    ensures
        r == inside(lon, lat),
{
    proof {
        lemma_strictly_between(LON_MIN, lon, LON_MAX);
        lemma_strictly_between(LAT_MIN, lat, LAT_MAX);
    }
    LON_MIN < lon && lon < LON_MAX && LAT_MIN < lat && lat < LAT_MAX
}

/// The forward transform's result for the point with bit patterns `lon`
/// and `lat`, given the bit patterns of its distorted image: the image
/// inside the box, and the point itself, bit for bit, outside it.
pub fn forward(lon: u64, lat: u64, distorted: (u64, u64)) -> (r: (u64, u64))
    ensures
        inside(lon, lat) ==> r == distorted,
        !inside(lon, lat) ==> r == (lon, lat),
{
    if in_region(lon, lat) {
        distorted
    } else {
        (lon, lat)
    }
}

} // verus!

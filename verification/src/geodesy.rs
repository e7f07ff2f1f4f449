//! Great-circle distance and the solar trip time metric.
//!
//! `haversine_distance` evaluates the haversine formula over fixed-point
//! words, calling the outside transcendental functions only through the
//! bindings in `trig`; every other step is explicit integer arithmetic, so
//! the whole computation is pinned to one deterministic value per input
//! pair.  `solar_trip_time` turns that distance into a travel-feasibility
//! estimate: flight seconds at the maximum adversary ground speed, minus
//! the local solar-time shift earned by crossing longitudes (one degree of
//! longitude is worth 240 seconds of local time).

use vstd::prelude::*;
use vstd::arithmetic::div_mod::{lemma_basic_div, lemma_div_is_ordered};
use crate::fixedpoint::{
    clamp_i64, clamp_val, fixed_mul, fixed_mul_val, lemma_fixed_mul_val_bound,
    lemma_fixed_mul_val_commutes, lemma_fixed_mul_val_nonneg, lemma_fixed_mul_val_square_nonneg,
    lemma_fixed_mul_val_zero, Degree, FIXED_ONE, RADIANS_PER_DEGREE_BITS,
};
use crate::trig::{
    asin_identity, cos_clamped, cos_clamped_val, sin_clamped, sin_clamped_val, sqrt_clamped,
    sqrt_clamped_val,
};

verus! {

/// Latitude of the North Pole in fixed-point degrees (90 * 2^32).
pub const NORTH_POLE_LAT_BITS: i64 = 90 * 4294967296;

/// Longitude of the antimeridian in fixed-point degrees (180 * 2^32).
pub const DATELINE_LON_BITS: i64 = 180 * 4294967296;

/// Mean earth radius in meters; the sphere all distances are computed on.
pub const MEAN_EARTH_RADIUS_M: u32 = 6371000;

/// Maximum ground speed over land attributed to an adversary, in m/s.
pub const MAX_SPEED_MPS: u32 = 83;

/// Seconds of local solar time gained per degree of longitude crossed
/// (24h * 3600s / 360 degrees).
pub const SECONDS_PER_DEGREE: u64 = 240;

/// No two locations of a registrable set may be closer than this in solar
/// trip time, in seconds.
pub const MIN_SOLAR_TRIP_TIME_S: i32 = 1;

/// Minimum distance in meters a location must keep from the poles and from
/// the antimeridian, where the solar-time model is singular.
pub const DATELINE_DISTANCE_M: u32 = 1000000;

/// A meetup point: a latitude/longitude pair in fixed-point degrees.
#[derive(Clone, Copy, PartialEq, Eq, Structural, Debug)]
pub struct Location {
    pub lat: Degree,
    pub lon: Degree,
}

/// The North Pole, the northern singular point of the solar-time model.
pub fn north_pole() -> (l: Location)
    ensures
        l == north_pole_val(),
{
    Location { lat: Degree { bits: NORTH_POLE_LAT_BITS }, lon: Degree { bits: 0 } }
}

/// The South Pole, the southern singular point of the solar-time model.
pub fn south_pole() -> (l: Location)
    ensures
        l == south_pole_val(),
{
    Location { lat: Degree { bits: -NORTH_POLE_LAT_BITS }, lon: Degree { bits: 0 } }
}

/// The North Pole as a value.
pub open spec fn north_pole_val() -> Location {
    Location { lat: Degree { bits: NORTH_POLE_LAT_BITS }, lon: Degree { bits: 0 } }
}

/// The South Pole as a value.
pub open spec fn south_pole_val() -> Location {
    Location { lat: Degree { bits: (-90 * 4294967296) as i64 }, lon: Degree { bits: 0 } }
}

/// A coordinate is meaningful only with latitude in [-90, 90] degrees and
/// longitude in [-180, 180] degrees.
pub open spec fn is_valid_geolocation_val(l: Location) -> bool {
    &&& -(NORTH_POLE_LAT_BITS as int) <= l.lat.bits <= NORTH_POLE_LAT_BITS as int
    &&& -(DATELINE_LON_BITS as int) <= l.lon.bits <= DATELINE_LON_BITS as int
}

/// Range check on a single coordinate.  Every coordinate must pass it
/// before it reaches the distance calculator, so malformed input never
/// drives the trigonometry.
pub fn is_valid_geolocation(loc: &Location) -> (valid: bool)
    ensures
        valid == is_valid_geolocation_val(*loc),
{
    if loc.lat.bits > NORTH_POLE_LAT_BITS {
        return false;
    }
    if loc.lat.bits < -NORTH_POLE_LAT_BITS {
        return false;
    }
    if loc.lon.bits > DATELINE_LON_BITS {
        return false;
    }
    if loc.lon.bits < -DATELINE_LON_BITS {
        return false;
    }
    true
}

/// Haversine distance in meters between two valid coordinates, as one
/// deterministic function of the two fixed-point coordinate words.
///
/// The half-angle differences are taken as absolute values, which makes the
/// result symmetric by construction.  The haversine operand is restricted
/// to [0, 1] before the square root, so rounding excursions of the outside
/// trigonometry are clamped rather than propagated; the outside crate's
/// arcsine is the small-angle identity, so the arc length is twice the
/// square root itself.  The final scaling to meters rounds to the nearest
/// meter.
pub open spec fn haversine_distance_val(a: Location, b: Location) -> int {
    let th1 = fixed_mul_val(a.lat.bits as int, RADIANS_PER_DEGREE_BITS as int);
    let th2 = fixed_mul_val(b.lat.bits as int, RADIANS_PER_DEGREE_BITS as int);
    let dth_half = (if th1 >= th2 { th1 - th2 } else { th2 - th1 }) / 2;
    let dlon = if a.lon.bits >= b.lon.bits {
        a.lon.bits - b.lon.bits
    } else {
        b.lon.bits - a.lon.bits
    };
    let dlam_half = fixed_mul_val(dlon, RADIANS_PER_DEGREE_BITS as int) / 2;
    let t_lat = sin_clamped_val(dth_half);
    let hav_lat = fixed_mul_val(t_lat, t_lat);
    let cos_prod = fixed_mul_val(cos_clamped_val(th1), cos_clamped_val(th2));
    let t_lon = sin_clamped_val(dlam_half);
    let hav_lon = fixed_mul_val(t_lon, t_lon);
    let h = clamp_val(hav_lat + fixed_mul_val(cos_prod, hav_lon), 0, FIXED_ONE as int);
    let arc_half = sqrt_clamped_val(h);
    (2 * (MEAN_EARTH_RADIUS_M as int) * arc_half + 2147483648) / (FIXED_ONE as int)
}

/// Great-circle distance in meters between two valid coordinates, rounded
/// to the nearest meter.  Total on its domain: identical coordinates yield
/// zero, and no input can exceed the antipodal maximum.
pub fn haversine_distance(a: &Location, b: &Location) -> (meters: u32)
    requires
        is_valid_geolocation_val(*a),
        is_valid_geolocation_val(*b),
    ensures
        meters as int == haversine_distance_val(*a, *b),
        meters <= 12742000,
        *a == *b ==> meters == 0,
{
    proof {
        lemma_fixed_mul_val_bound(
            a.lat.bits as int,
            RADIANS_PER_DEGREE_BITS as int,
            NORTH_POLE_LAT_BITS as int,
            RADIANS_PER_DEGREE_BITS as int,
        );
        lemma_fixed_mul_val_bound(
            b.lat.bits as int,
            RADIANS_PER_DEGREE_BITS as int,
            NORTH_POLE_LAT_BITS as int,
            RADIANS_PER_DEGREE_BITS as int,
        );
    }
    let th1 = fixed_mul(a.lat.bits, RADIANS_PER_DEGREE_BITS);
    let th2 = fixed_mul(b.lat.bits, RADIANS_PER_DEGREE_BITS);
    let dth: i64 = if th1 >= th2 {
        th1 - th2
    } else {
        th2 - th1
    };
    let dth_half: i64 = ((dth as u64) / 2) as i64;
    let dlon: i64 = if a.lon.bits >= b.lon.bits {
        a.lon.bits - b.lon.bits
    } else {
        b.lon.bits - a.lon.bits
    };
    proof {
        lemma_fixed_mul_val_bound(
            dlon as int,
            RADIANS_PER_DEGREE_BITS as int,
            2 * (DATELINE_LON_BITS as int),
            RADIANS_PER_DEGREE_BITS as int,
        );
        lemma_fixed_mul_val_nonneg(dlon as int, RADIANS_PER_DEGREE_BITS as int);
    }
    let dlam: i64 = fixed_mul(dlon, RADIANS_PER_DEGREE_BITS);
    let dlam_half: i64 = ((dlam as u64) / 2) as i64;

    let t_lat = sin_clamped(dth_half);
    proof {
        lemma_fixed_mul_val_bound(t_lat as int, t_lat as int, FIXED_ONE as int, FIXED_ONE as int);
        lemma_fixed_mul_val_square_nonneg(t_lat as int);
    }
    let hav_lat = fixed_mul(t_lat, t_lat);
    let c1 = cos_clamped(th1);
    let c2 = cos_clamped(th2);
    proof {
        lemma_fixed_mul_val_bound(c1 as int, c2 as int, FIXED_ONE as int, FIXED_ONE as int);
    }
    let cos_prod = fixed_mul(c1, c2);
    let t_lon = sin_clamped(dlam_half);
    proof {
        lemma_fixed_mul_val_bound(t_lon as int, t_lon as int, FIXED_ONE as int, FIXED_ONE as int);
        lemma_fixed_mul_val_square_nonneg(t_lon as int);
    }
    let hav_lon = fixed_mul(t_lon, t_lon);
    proof {
        lemma_fixed_mul_val_bound(
            cos_prod as int,
            hav_lon as int,
            FIXED_ONE as int,
            FIXED_ONE as int,
        );
    }
    let cross = fixed_mul(cos_prod, hav_lon);
    let h = clamp_i64(hav_lat + cross, 0, FIXED_ONE);
    let arc_half_raw = sqrt_clamped(h);
    let arc_half = asin_identity(arc_half_raw);

    let num: u128 = 12742000u128 * (arc_half as u128) + 2147483648u128;
    let meters_wide: u128 = num / 4294967296u128;
    proof {
        lemma_div_is_ordered(
            num as int,
            12742000 * (FIXED_ONE as int) + 2147483648,
            FIXED_ONE as int,
        );
        if *a == *b {
            assert(dth == 0);
            assert(dlon == 0);
            lemma_fixed_mul_val_zero(RADIANS_PER_DEGREE_BITS as int);
            assert(dlam == 0);
            assert(-65536 < t_lat < 65536);
            assert(-65536 < t_lon < 65536);
            assert(t_lat * t_lat < 4294967296 && t_lat * t_lat >= 0) by (nonlinear_arith)
                requires
                    -65536 < t_lat < 65536,
            ;
            assert(t_lon * t_lon < 4294967296 && t_lon * t_lon >= 0) by (nonlinear_arith)
                requires
                    -65536 < t_lon < 65536,
            ;
            lemma_basic_div(t_lat * t_lat, FIXED_ONE as int);
            lemma_basic_div(t_lon * t_lon, FIXED_ONE as int);
            assert(hav_lat == 0);
            assert(hav_lon == 0);
            lemma_fixed_mul_val_zero(cos_prod as int);
            assert(cross == 0);
            assert(h == 0);
            assert(arc_half == 0);
            assert(meters_wide == 0);
        }
    }
    meters_wide as u32
}

/// The distance is symmetric: swapping the endpoints changes nothing.
pub proof fn lemma_haversine_distance_symmetric(a: Location, b: Location)
    ensures
        haversine_distance_val(a, b) == haversine_distance_val(b, a),
{
    let th1 = fixed_mul_val(a.lat.bits as int, RADIANS_PER_DEGREE_BITS as int);
    let th2 = fixed_mul_val(b.lat.bits as int, RADIANS_PER_DEGREE_BITS as int);
    lemma_fixed_mul_val_commutes(cos_clamped_val(th1), cos_clamped_val(th2));
}

/// Solar trip time in seconds between two coordinates: flight time at the
/// maximum adversary ground speed, minus the absolute local solar-time
/// shift of the longitude difference.  A small or negative value means one
/// person could plausibly attend meetups at both points on the same local
/// day.
pub open spec fn solar_trip_time_val(a: Location, b: Location) -> int {
    let flight = haversine_distance_val(a, b) / (MAX_SPEED_MPS as int);
    let dlon = if a.lon.bits >= b.lon.bits {
        a.lon.bits - b.lon.bits
    } else {
        b.lon.bits - a.lon.bits
    };
    let shift = (dlon * (SECONDS_PER_DEGREE as int)) / (FIXED_ONE as int);
    flight - shift
}

/// Solar trip time in seconds between two valid coordinates.  Total on its
/// domain: the divisor is a fixed positive constant and both operands are
/// bounded, so no input can fault.
pub fn solar_trip_time(from: &Location, to: &Location) -> (seconds: i32)
    requires
        is_valid_geolocation_val(*from),
        is_valid_geolocation_val(*to),
    ensures
        seconds as int == solar_trip_time_val(*from, *to),
{
    let d = haversine_distance(from, to);
    proof {
        lemma_div_is_ordered(d as int, 12742000, MAX_SPEED_MPS as int);
    }
    let flight: u32 = d / MAX_SPEED_MPS;
    let dlon: i64 = if from.lon.bits >= to.lon.bits {
        from.lon.bits - to.lon.bits
    } else {
        to.lon.bits - from.lon.bits
    };
    let shifted: u64 = (dlon as u64) * SECONDS_PER_DEGREE;
    let shift: u64 = shifted / 4294967296u64;
    proof {
        lemma_div_is_ordered(
            shifted as int,
            2 * (DATELINE_LON_BITS as int) * (SECONDS_PER_DEGREE as int),
            FIXED_ONE as int,
        );
    }
    (flight as i32) - (shift as i32)
}

/// The solar trip time is symmetric: swapping the endpoints changes
/// nothing.
pub proof fn lemma_solar_trip_time_symmetric(a: Location, b: Location)
    ensures
        solar_trip_time_val(a, b) == solar_trip_time_val(b, a),
{
    lemma_haversine_distance_symmetric(a, b);
}

} // verus!

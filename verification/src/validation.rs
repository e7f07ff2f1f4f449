//! The location-set validator: a pure accept/reject decision over a
//! proposed set and a registry snapshot.
//!
//! The checks run as an ordered, short-circuiting conjunction; the first
//! failing check names the rejection reason.  Each check is independently
//! necessary, so the order only decides which reason is surfaced, never
//! whether the set is accepted:
//!
//! 1. the recomputed identifier must not be registered yet;
//! 2. every member location must be a valid coordinate;
//! 3. every pair of distinct member locations must be at least the minimum
//!    solar trip time apart (an exhaustive scan: the time-adjusted metric
//!    is not monotonic in raw distance, so nothing can be pruned);
//! 4. no member may sit within the minimum distance of either pole;
//! 5. no member may sit within the minimum distance of the antimeridian,
//!    probed at the same latitude and longitude 180 degrees;
//! 6. every member must keep the minimum solar trip time from every
//!    location of every already-registered set.
//!
//! The validator never mutates anything: committing an accepted set is the
//! embedding system's responsibility.

use vstd::prelude::*;
use crate::fixedpoint::Degree;
use crate::geodesy::{
    haversine_distance, haversine_distance_val, is_valid_geolocation, is_valid_geolocation_val,
    north_pole, north_pole_val, solar_trip_time, solar_trip_time_val, south_pole, south_pole_val,
    Location, DATELINE_DISTANCE_M, DATELINE_LON_BITS, MIN_SOLAR_TRIP_TIME_S,
};
use crate::proposal::{location_set_id, location_set_id_val, LocationSet};
use crate::registry::{all_locations_valid, Registry};

verus! {

/// Why a proposed set was rejected.  Every failure is a validation
/// rejection with a caller-actionable reason, never a fault.
#[derive(Clone, Copy, PartialEq, Eq, Structural, Debug)]
pub enum RejectionReason {
    /// The identical `(locations, bootstrappers)` pair is already
    /// registered.
    DuplicateIdentifier,
    /// A member location lies outside the valid coordinate ranges.
    InvalidGeolocation,
    /// Two distinct member locations are closer than the minimum solar
    /// trip time.
    IntraSetTooClose,
    /// A member location lies too close to one of the poles.
    TooNearPole,
    /// A member location lies too close to the antimeridian.
    TooNearDateline,
    /// A member location is closer than the minimum solar trip time to a
    /// location of an already-registered set.
    TooCloseToOtherRegisteredSet,
}

/// The validator's decision.
#[derive(Clone, Copy, PartialEq, Eq, Structural, Debug)]
pub enum ValidationOutcome {
    /// The set may be committed to the registry.
    Accept,
    /// The set must not be committed; the reason names the first failing
    /// check.
    Reject(RejectionReason),
}

/// Two distinct member locations are closer than the minimum solar trip
/// time.  Locations with equal coordinates are exempt from the pairwise
/// check, exactly as the scan skips them.
pub open spec fn has_close_pair(locs: Seq<Location>) -> bool {
    exists|i: int, j: int|
        0 <= i < locs.len() && 0 <= j < locs.len() && locs[i] != locs[j]
            && #[trigger] solar_trip_time_val(locs[i], locs[j]) < MIN_SOLAR_TRIP_TIME_S as int
}

/// The location sits within the minimum distance of either pole, where
/// longitude and hence the solar-time model is undefined.
pub open spec fn near_pole(l: Location) -> bool {
    haversine_distance_val(l, north_pole_val()) < DATELINE_DISTANCE_M as int
        || haversine_distance_val(l, south_pole_val()) < DATELINE_DISTANCE_M as int
}

/// Some member location sits too close to a pole.
pub open spec fn some_near_pole(locs: Seq<Location>) -> bool {
    exists|i: int| 0 <= i < locs.len() && near_pole(#[trigger] locs[i])
}

/// The probe point for the antimeridian check: same latitude, longitude
/// 180 degrees.
pub open spec fn dateline_probe_val(l: Location) -> Location {
    Location { lat: l.lat, lon: Degree { bits: DATELINE_LON_BITS } }
}

/// The location sits within the minimum distance of the antimeridian,
/// where signed longitude differences become ambiguous.
pub open spec fn near_dateline(l: Location) -> bool {
    haversine_distance_val(l, dateline_probe_val(l)) < DATELINE_DISTANCE_M as int
}

/// Some member location sits too close to the antimeridian.
pub open spec fn some_near_dateline(locs: Seq<Location>) -> bool {
    exists|i: int| 0 <= i < locs.len() && near_dateline(#[trigger] locs[i])
}

/// Some member location is closer than the minimum solar trip time to
/// some location of some registered set.
pub open spec fn too_close_to_registered(locs: Seq<Location>, reg: Registry) -> bool {
    exists|i: int, j: int, k: int|
        0 <= i < locs.len() && 0 <= j < reg.entries@.len() && 0 <= k
            < reg.entries@[j].set.locations@.len() && #[trigger] solar_trip_time_val(
            locs[i],
            reg.entries@[j].set.locations@[k],
        ) < MIN_SOLAR_TRIP_TIME_S as int
}

/// The validator's decision as a function of its inputs: the ordered,
/// short-circuiting conjunction of the six checks.
pub open spec fn validate_val(s: LocationSet, reg: Registry) -> ValidationOutcome {
    if reg.contains_id_val(location_set_id_val(s)) {
        ValidationOutcome::Reject(RejectionReason::DuplicateIdentifier)
    } else if !all_locations_valid(s.locations@) {
        ValidationOutcome::Reject(RejectionReason::InvalidGeolocation)
    } else if has_close_pair(s.locations@) {
        ValidationOutcome::Reject(RejectionReason::IntraSetTooClose)
    } else if some_near_pole(s.locations@) {
        ValidationOutcome::Reject(RejectionReason::TooNearPole)
    } else if some_near_dateline(s.locations@) {
        ValidationOutcome::Reject(RejectionReason::TooNearDateline)
    } else if too_close_to_registered(s.locations@, reg) {
        ValidationOutcome::Reject(RejectionReason::TooCloseToOtherRegisteredSet)
    } else {
        ValidationOutcome::Accept
    }
}

/// Checks every member location against the coordinate range check.
#[verifier::loop_isolation(false)]
fn check_all_locations_valid(locs: &Vec<Location>) -> (ok: bool)
    ensures
        ok == all_locations_valid(locs@),
{
    let n = locs.len();
    let mut i: usize = 0;
    while i < n
        invariant
            i <= n,
            forall|p: int| 0 <= p < i ==> is_valid_geolocation_val(#[trigger] locs@[p]),
        decreases n - i,
    {
        if !is_valid_geolocation(&locs[i]) {
            return false;
        }
        i += 1;
    }
    true
}

/// Scans every ordered pair of distinct member locations for a solar trip
/// time below the minimum.
#[verifier::loop_isolation(false)]
fn scan_for_close_pair(locs: &Vec<Location>) -> (found: bool)
    requires
        all_locations_valid(locs@),
    ensures
        found == has_close_pair(locs@),
{
    let n = locs.len();
    let mut i: usize = 0;
    while i < n
        invariant
            i <= n,
            forall|p: int, q: int|
                0 <= p < i && 0 <= q < n && locs@[p] != locs@[q]
                    ==> #[trigger] solar_trip_time_val(locs@[p], locs@[q])
                    >= MIN_SOLAR_TRIP_TIME_S as int,
        decreases n - i,
    {
        let l1 = locs[i];
        let mut j: usize = 0;
        while j < n
            invariant
                j <= n,
                forall|q: int|
                    0 <= q < j && l1 != locs@[q] ==> #[trigger] solar_trip_time_val(l1, locs@[q])
                        >= MIN_SOLAR_TRIP_TIME_S as int,
            decreases n - j,
        {
            let l2 = locs[j];
            if l1 != l2 {
                if solar_trip_time(&l1, &l2) < MIN_SOLAR_TRIP_TIME_S {
                    return true;
                }
            }
            j += 1;
        }
        i += 1;
    }
    false
}

/// Scans the member locations for one within the minimum distance of
/// either pole.
#[verifier::loop_isolation(false)]
fn scan_for_pole_proximity(locs: &Vec<Location>) -> (found: bool)
    requires
        all_locations_valid(locs@),
    ensures
        found == some_near_pole(locs@),
{
    let np = north_pole();
    let sp = south_pole();
    let n = locs.len();
    let mut i: usize = 0;
    while i < n
        invariant
            i <= n,
            forall|p: int| 0 <= p < i ==> !near_pole(#[trigger] locs@[p]),
        decreases n - i,
    {
        let l = locs[i];
        if haversine_distance(&l, &np) < DATELINE_DISTANCE_M || haversine_distance(&l, &sp)
            < DATELINE_DISTANCE_M {
            return true;
        }
        i += 1;
    }
    false
}

/// Scans the member locations for one within the minimum distance of the
/// antimeridian.
#[verifier::loop_isolation(false)]
fn scan_for_dateline_proximity(locs: &Vec<Location>) -> (found: bool)
    requires
        all_locations_valid(locs@),
    ensures
        found == some_near_dateline(locs@),
{
    let n = locs.len();
    let mut i: usize = 0;
    while i < n
        invariant
            i <= n,
            forall|p: int| 0 <= p < i ==> !near_dateline(#[trigger] locs@[p]),
        decreases n - i,
    {
        let l = locs[i];
        let probe = Location { lat: l.lat, lon: Degree { bits: DATELINE_LON_BITS } };
        if haversine_distance(&l, &probe) < DATELINE_DISTANCE_M {
            return true;
        }
        i += 1;
    }
    false
}

/// Scans every member location against every location of every registered
/// set for a solar trip time below the minimum.  This is the dominant cost
/// of validation: it grows with the whole registry, and the embedding
/// system should keep it off any latency-sensitive path.
#[verifier::loop_isolation(false)]
fn scan_registry_proximity(locs: &Vec<Location>, registry: &Registry) -> (found: bool)
    requires
        registry.wf(),
        all_locations_valid(locs@),
    ensures
        found == too_close_to_registered(locs@, *registry),
{
    let n = locs.len();
    let r = registry.entries.len();
    let mut i: usize = 0;
    while i < n
        invariant
            i <= n,
            forall|p: int, j: int, k: int|
                0 <= p < i && 0 <= j < r && 0 <= k < registry.entries@[j].set.locations@.len()
                    ==> #[trigger] solar_trip_time_val(
                    locs@[p],
                    registry.entries@[j].set.locations@[k],
                ) >= MIN_SOLAR_TRIP_TIME_S as int,
        decreases n - i,
    {
        let l1 = locs[i];
        let mut j: usize = 0;
        while j < r
            invariant
                j <= r,
                forall|jj: int, k: int|
                    0 <= jj < j && 0 <= k < registry.entries@[jj].set.locations@.len()
                        ==> #[trigger] solar_trip_time_val(
                        l1,
                        registry.entries@[jj].set.locations@[k],
                    ) >= MIN_SOLAR_TRIP_TIME_S as int,
            decreases r - j,
        {
            let entry = &registry.entries[j];
            let m = entry.set.locations.len();
            let mut k: usize = 0;
            while k < m
                invariant
                    k <= m,
                    forall|kk: int|
                        0 <= kk < k ==> #[trigger] solar_trip_time_val(l1, entry.set.locations@[kk])
                            >= MIN_SOLAR_TRIP_TIME_S as int,
                decreases m - k,
            {
                let other = entry.set.locations[k];
                if solar_trip_time(&l1, &other) < MIN_SOLAR_TRIP_TIME_S {
                    return true;
                }
                k += 1;
            }
            j += 1;
        }
        i += 1;
    }
    false
}

/// Decides whether a proposed set may be admitted against the given
/// registry snapshot.  Pure and idempotent: the outcome is a function of
/// the two arguments and nothing else, and nothing is mutated or
/// committed here.
pub fn validate(set: &LocationSet, registry: &Registry) -> (outcome: ValidationOutcome)
    requires
        registry.wf(),
    ensures
        outcome == validate_val(*set, *registry),
{
    let id = location_set_id(set);
    if registry.contains_id(&id) {
        return ValidationOutcome::Reject(RejectionReason::DuplicateIdentifier);
    }
    if !check_all_locations_valid(&set.locations) {
        return ValidationOutcome::Reject(RejectionReason::InvalidGeolocation);
    }
    if scan_for_close_pair(&set.locations) {
        return ValidationOutcome::Reject(RejectionReason::IntraSetTooClose);
    }
    if scan_for_pole_proximity(&set.locations) {
        return ValidationOutcome::Reject(RejectionReason::TooNearPole);
    }
    if scan_for_dateline_proximity(&set.locations) {
        return ValidationOutcome::Reject(RejectionReason::TooNearDateline);
    }
    if scan_registry_proximity(&set.locations, registry) {
        return ValidationOutcome::Reject(RejectionReason::TooCloseToOtherRegisteredSet);
    }
    ValidationOutcome::Accept
}

/// Resubmitting a pair whose identifier is already registered is rejected
/// as a duplicate, whatever else the set looks like.
pub proof fn lemma_duplicate_rejected(s: LocationSet, reg: Registry)
    requires
        reg.contains_id_val(location_set_id_val(s)),
    ensures
        validate_val(s, reg) == ValidationOutcome::Reject(RejectionReason::DuplicateIdentifier),
{
}

/// A fresh set containing two distinct locations below the minimum solar
/// trip time is rejected for insufficient internal separation, provided
/// every member is a valid coordinate.
pub proof fn lemma_close_pair_rejected(s: LocationSet, reg: Registry, i: int, j: int)
    requires
        !reg.contains_id_val(location_set_id_val(s)),
        all_locations_valid(s.locations@),
        0 <= i < s.locations@.len(),
        0 <= j < s.locations@.len(),
        s.locations@[i] != s.locations@[j],
        solar_trip_time_val(s.locations@[i], s.locations@[j]) < MIN_SOLAR_TRIP_TIME_S as int,
    ensures
        validate_val(s, reg) == ValidationOutcome::Reject(RejectionReason::IntraSetTooClose),
{
    assert(has_close_pair(s.locations@));
}

/// A fresh, internally separated set with a member within the minimum
/// distance of either pole is rejected for pole proximity.
pub proof fn lemma_near_pole_rejected(s: LocationSet, reg: Registry, i: int)
    requires
        !reg.contains_id_val(location_set_id_val(s)),
        all_locations_valid(s.locations@),
        !has_close_pair(s.locations@),
        0 <= i < s.locations@.len(),
        near_pole(s.locations@[i]),
    ensures
        validate_val(s, reg) == ValidationOutcome::Reject(RejectionReason::TooNearPole),
{
    assert(some_near_pole(s.locations@));
}

/// A fresh, internally separated set that keeps clear of the poles but has
/// a member within the minimum distance of the antimeridian is rejected
/// for dateline proximity.
pub proof fn lemma_near_dateline_rejected(s: LocationSet, reg: Registry, i: int)
    requires
        !reg.contains_id_val(location_set_id_val(s)),
        all_locations_valid(s.locations@),
        !has_close_pair(s.locations@),
        !some_near_pole(s.locations@),
        0 <= i < s.locations@.len(),
        near_dateline(s.locations@[i]),
    ensures
        validate_val(s, reg) == ValidationOutcome::Reject(RejectionReason::TooNearDateline),
{
    assert(some_near_dateline(s.locations@));
}

/// A set that passes every check on its own but has a member closer than
/// the minimum solar trip time to an already-registered location is
/// rejected for proximity to another registered set.
pub proof fn lemma_close_to_registered_rejected(
    s: LocationSet,
    reg: Registry,
    i: int,
    j: int,
    k: int,
)
    requires
        !reg.contains_id_val(location_set_id_val(s)),
        all_locations_valid(s.locations@),
        !has_close_pair(s.locations@),
        !some_near_pole(s.locations@),
        !some_near_dateline(s.locations@),
        0 <= i < s.locations@.len(),
        0 <= j < reg.entries@.len(),
        0 <= k < reg.entries@[j].set.locations@.len(),
        solar_trip_time_val(s.locations@[i], reg.entries@[j].set.locations@[k])
            < MIN_SOLAR_TRIP_TIME_S as int,
    ensures
        validate_val(s, reg) == ValidationOutcome::Reject(
            RejectionReason::TooCloseToOtherRegisteredSet,
        ),
{
    assert(too_close_to_registered(s.locations@, reg));
}

/// Validation is idempotent: two runs over the same proposal and the same
/// registry snapshot reach the same outcome.  Together with the contract
/// of `validate`, whose result equals `validate_val` of its inputs, this
/// pins the decision to the inputs alone.
pub proof fn lemma_validate_idempotent(
    first: ValidationOutcome,
    second: ValidationOutcome,
    s: LocationSet,
    reg: Registry,
)
    requires
        first == validate_val(s, reg),
        second == validate_val(s, reg),
    ensures
        first == second,
{
}

/// An accepted set is internally sound: every member location is a valid
/// coordinate.  This is what lets the embedding system append an accepted
/// set without breaking the registry invariant.
pub proof fn lemma_accept_implies_valid_locations(s: LocationSet, reg: Registry)
    requires
        validate_val(s, reg) == ValidationOutcome::Accept,
    ensures
        all_locations_valid(s.locations@),
{
}

} // verus!

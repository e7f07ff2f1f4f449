use encointer_currencies::fixedpoint::Degree;
use encointer_currencies::geodesy::Location;
use encointer_currencies::proposal::{location_set_id, AccountId, LocationSet};
use encointer_currencies::registry::Registry;
use encointer_currencies::validation::{validate, RejectionReason, ValidationOutcome};

fn loc(lat_micro: i64, lon_micro: i64) -> Location {
    Location {
        lat: Degree::from_micro_degrees(lat_micro),
        lon: Degree::from_micro_degrees(lon_micro),
    }
}

fn account(tag: u8) -> AccountId {
    AccountId { bytes: vec![tag; 32] }
}

fn bootstrappers() -> Vec<AccountId> {
    vec![account(1), account(2), account(3)]
}

fn set(locations: Vec<Location>) -> LocationSet {
    LocationSet { locations, bootstrappers: bootstrappers() }
}

/// Validates and, on acceptance, commits the set, as the embedding system
/// would.
fn try_register(registry: &mut Registry, proposed: &LocationSet) -> ValidationOutcome {
    let outcome = validate(proposed, registry);
    if outcome == ValidationOutcome::Accept {
        registry.register(location_set_id(proposed), proposed.clone());
    }
    outcome
}

#[test]
fn new_currency_works() {
    let mut registry = Registry::new();
    let a = loc(1_000_000, 1_000_000);
    let b = loc(1_000_000, 2_000_000);
    let proposed = set(vec![a, b]);
    let cid = location_set_id(&proposed);

    assert_eq!(try_register(&mut registry, &proposed), ValidationOutcome::Accept);
    assert!(registry.contains_id(&cid));
    assert_eq!(registry.entries.len(), 1);
    assert_eq!(registry.entries[0].set.locations, vec![a, b]);
    assert_eq!(registry.entries[0].set.bootstrappers, bootstrappers());
}

#[test]
fn new_currency_with_too_close_inner_locations_fails() {
    let mut registry = Registry::new();
    // a and b roughly 11 cm apart
    let a = loc(1_000_000, 1_000_000);
    let b = loc(1_000_000, 1_000_001);
    let outcome = try_register(&mut registry, &set(vec![a, b]));
    assert_eq!(
        outcome,
        ValidationOutcome::Reject(RejectionReason::IntraSetTooClose)
    );
    assert_eq!(registry.entries.len(), 0);
}

#[test]
fn new_currency_too_close_to_existing_currency_fails() {
    let mut registry = Registry::new();
    let a = loc(1_000_000, 1_000_000);
    let b = loc(1_000_000, 2_000_000);
    assert_eq!(
        try_register(&mut registry, &set(vec![a, b])),
        ValidationOutcome::Accept
    );

    // second set, each location a fraction of a meter from the first one's
    let a = loc(1_000_001, 1_000_001);
    let b = loc(1_000_001, 2_000_001);
    let outcome = try_register(&mut registry, &set(vec![a, b]));
    assert_eq!(
        outcome,
        ValidationOutcome::Reject(RejectionReason::TooCloseToOtherRegisteredSet)
    );
    assert_eq!(registry.entries.len(), 1);
}

#[test]
fn new_currency_with_near_pole_locations_fails() {
    let mut registry = Registry::new();

    let a = loc(89_000_000, 60_000_000);
    let b = loc(89_000_000, -60_000_000);
    let outcome = try_register(&mut registry, &set(vec![a, b]));
    assert!(matches!(outcome, ValidationOutcome::Reject(_)));

    let a = loc(-89_000_000, 60_000_000);
    let b = loc(-89_000_000, -60_000_000);
    let outcome = try_register(&mut registry, &set(vec![a, b]));
    assert!(matches!(outcome, ValidationOutcome::Reject(_)));
}

#[test]
fn new_currency_near_dateline_fails() {
    let mut registry = Registry::new();
    let a = loc(10_000_000, 179_000_000);
    let b = loc(11_000_000, 179_000_000);
    let outcome = try_register(&mut registry, &set(vec![a, b]));
    assert_eq!(
        outcome,
        ValidationOutcome::Reject(RejectionReason::TooNearDateline)
    );
}

#[test]
fn single_location_near_north_pole_is_rejected_as_such() {
    let registry = Registry::new();
    // one degree from the pole, about 111 km, well inside the exclusion zone
    let outcome = validate(&set(vec![loc(89_000_000, 60_000_000)]), &registry);
    assert_eq!(outcome, ValidationOutcome::Reject(RejectionReason::TooNearPole));
}

#[test]
fn single_location_near_south_pole_is_rejected_as_such() {
    let registry = Registry::new();
    let outcome = validate(&set(vec![loc(-89_000_000, -60_000_000)]), &registry);
    assert_eq!(outcome, ValidationOutcome::Reject(RejectionReason::TooNearPole));
}

#[test]
fn invalid_geolocation_is_rejected() {
    let registry = Registry::new();
    let outcome = validate(&set(vec![loc(91_000_000, 0)]), &registry);
    assert_eq!(
        outcome,
        ValidationOutcome::Reject(RejectionReason::InvalidGeolocation)
    );
    let outcome = validate(&set(vec![loc(0, -180_000_001)]), &registry);
    assert_eq!(
        outcome,
        ValidationOutcome::Reject(RejectionReason::InvalidGeolocation)
    );
}

#[test]
fn resubmitting_an_accepted_pair_is_rejected_as_duplicate() {
    let mut registry = Registry::new();
    let proposed = set(vec![loc(1_000_000, 1_000_000), loc(1_000_000, 2_000_000)]);
    assert_eq!(try_register(&mut registry, &proposed), ValidationOutcome::Accept);

    let outcome = validate(&proposed, &registry);
    assert_eq!(
        outcome,
        ValidationOutcome::Reject(RejectionReason::DuplicateIdentifier)
    );
}

#[test]
fn validation_is_idempotent_on_an_unchanged_snapshot() {
    let mut registry = Registry::new();
    let accepted = set(vec![loc(1_000_000, 1_000_000), loc(1_000_000, 2_000_000)]);
    assert_eq!(try_register(&mut registry, &accepted), ValidationOutcome::Accept);

    let proposals = [
        set(vec![loc(1_000_001, 1_000_001)]),
        set(vec![loc(40_000_000, 40_000_000)]),
        set(vec![loc(89_500_000, 0)]),
        accepted.clone(),
    ];
    for proposed in &proposals {
        let first = validate(proposed, &registry);
        let second = validate(proposed, &registry);
        assert_eq!(first, second);
    }
}

#[test]
fn equal_locations_are_exempt_from_the_pairwise_check() {
    let registry = Registry::new();
    let l = loc(1_000_000, 1_000_000);
    let outcome = validate(&set(vec![l, l]), &registry);
    assert_eq!(outcome, ValidationOutcome::Accept);
}

#[test]
fn registry_lookup_returns_what_was_registered() {
    let mut registry = Registry::new();
    let proposed = set(vec![loc(1_000_000, 1_000_000), loc(1_000_000, 2_000_000)]);
    let cid = location_set_id(&proposed);
    assert_eq!(try_register(&mut registry, &proposed), ValidationOutcome::Accept);

    let stored = registry.lookup(&cid).expect("registered set must be found");
    assert_eq!(stored.locations, proposed.locations);
    assert_eq!(stored.bootstrappers, proposed.bootstrappers);

    let ids = registry.all_ids();
    assert_eq!(ids.len(), 1);
    assert_eq!(ids[0].bytes, cid.bytes);

    let unknown = location_set_id(&set(vec![loc(5_000_000, 5_000_000)]));
    assert!(registry.lookup(&unknown).is_none());
}

#[test]
fn identifiers_are_digests_of_the_proposed_pair() {
    let first = set(vec![loc(1_000_000, 1_000_000)]);
    let second = set(vec![loc(2_000_000, 1_000_000)]);
    let mut other_bootstrappers = first.clone();
    other_bootstrappers.bootstrappers = vec![account(9)];

    let id_first = location_set_id(&first);
    assert_eq!(id_first.bytes.len(), 32);
    // the same pair hashes to the same identifier
    assert_eq!(id_first.bytes, location_set_id(&first).bytes);
    // a different location or a different bootstrapper list changes it
    assert_ne!(id_first.bytes, location_set_id(&second).bytes);
    assert_ne!(id_first.bytes, location_set_id(&other_bootstrappers).bytes);
}

use grue_tally::errors::TallyError;
use grue_tally::loading_zone::LoadingZone;
use grue_tally::requests::{GrueRequest, VehicleResponse};
use grue_tally::tally_store::TallyStore;

const ANY_NUMBER_OF_MERCHANDISE: u8 = 3;

fn zone(raw: u8) -> LoadingZone {
    LoadingZone::try_from(raw).expect("valid zone")
}

fn roster_at_zero() -> Vec<(u8, u8)> {
    vec![(1, 0), (2, 0), (3, 0), (4, 0), (5, 0), (6, 0)]
}

#[test]
fn new_store_holds_default_roster_at_zero() {
    let store = TallyStore::new(None);
    assert_eq!(store.snapshot().entries(), roster_at_zero());
}

#[test]
fn update_then_snapshot_contains_value() {
    let mut store = TallyStore::new(None);
    store.update(zone(1), 7);
    let snap = store.snapshot();
    assert_eq!(snap.get_marchandise(zone(1)), Some(&7));
}

#[test]
fn second_update_overwrites_not_accumulates() {
    let mut store = TallyStore::new(None);
    store.update(zone(1), 7);
    store.update(zone(1), 2);
    assert_eq!(store.snapshot().get_marchandise(zone(1)), Some(&2));
}

#[test]
fn given_some_grue_data_when_snapshot_then_roster_with_data() {
    let mut store = TallyStore::new(None);
    store.update(zone(1), ANY_NUMBER_OF_MERCHANDISE);
    assert_eq!(
        store.snapshot().entries(),
        vec![(1, 3), (2, 0), (3, 0), (4, 0), (5, 0), (6, 0)]
    );
}

#[test]
fn given_new_grue_data_when_snapshot_then_gains_zone42() {
    let mut store = TallyStore::new(None);
    assert_eq!(store.snapshot().entries(), roster_at_zero());
    store.update(zone(42), ANY_NUMBER_OF_MERCHANDISE);
    assert_eq!(
        store.snapshot().entries(),
        vec![(1, 0), (2, 0), (3, 0), (4, 0), (5, 0), (6, 0), (42, 3)]
    );
}

#[test]
fn submit_valid_request_updates_store() {
    let mut store = TallyStore::new(None);
    let request = GrueRequest {
        grue_id: 1,
        number_of_merchandise: ANY_NUMBER_OF_MERCHANDISE,
    };
    assert_eq!(store.submit(&request), Ok(()));
    assert_eq!(store.snapshot().get_marchandise(zone(1)), Some(&3));
}

#[test]
fn submit_invalid_request_is_rejected_and_store_untouched() {
    let mut store = TallyStore::new(None);
    let request = GrueRequest {
        grue_id: LoadingZone::MAX_ID + 1,
        number_of_merchandise: ANY_NUMBER_OF_MERCHANDISE,
    };
    assert_eq!(store.submit(&request), Err(TallyError::InvalidIdentifier));
    assert_eq!(store.snapshot().entries(), roster_at_zero());
}

#[test]
fn given_no_initial_token_when_reset_then_ok_with_default() {
    let mut store = TallyStore::new(None);
    store.update(zone(1), ANY_NUMBER_OF_MERCHANDISE);
    store.update(zone(42), 9);
    assert_eq!(store.reset(None), Ok(()));
    assert_eq!(store.snapshot().entries(), roster_at_zero());
}

#[test]
fn tokenless_store_accepts_reset_with_any_token() {
    let mut store = TallyStore::new(None);
    store.update(zone(2), 5);
    assert_eq!(store.reset(Some(0xffff_ffff)), Ok(()));
    assert_eq!(store.snapshot().entries(), roster_at_zero());
}

#[test]
fn given_valid_token_when_reset_then_ok_with_default() {
    let token: u128 = 0xbb3b_9185_f6a8_49eb_b5de_9fb5_0ff4_41e4;
    let mut store = TallyStore::new(Some(token));
    store.update(zone(1), ANY_NUMBER_OF_MERCHANDISE);
    assert_eq!(
        store.snapshot().entries(),
        vec![(1, 3), (2, 0), (3, 0), (4, 0), (5, 0), (6, 0)]
    );
    assert_eq!(store.reset(Some(token)), Ok(()));
    assert_eq!(store.snapshot().entries(), roster_at_zero());
}

#[test]
fn given_invalid_token_when_reset_then_err_and_data_kept() {
    let token: u128 = 0xbb3b_9185_f6a8_49eb_b5de_9fb5_0ff4_41e4;
    let wrong: u128 = u128::MAX;
    let mut store = TallyStore::new(Some(token));
    store.update(zone(1), ANY_NUMBER_OF_MERCHANDISE);
    assert_eq!(store.reset(Some(wrong)), Err(TallyError::Unauthorized));
    assert_eq!(store.reset(None), Err(TallyError::Unauthorized));
    assert_eq!(
        store.snapshot().entries(),
        vec![(1, 3), (2, 0), (3, 0), (4, 0), (5, 0), (6, 0)]
    );
}

#[test]
fn reset_discards_zones_added_by_updates() {
    let mut store = TallyStore::new(None);
    store.update(zone(42), 9);
    assert_eq!(store.reset(None), Ok(()));
    let snap = store.snapshot();
    assert_eq!(snap.get_marchandise(zone(42)), None);
    assert_eq!(snap.entries().len(), 6);
}

#[test]
fn lookup_one_returns_value_or_not_found() {
    let mut store = TallyStore::new(None);
    assert_eq!(store.lookup_one(zone(3)), Ok(0));
    store.update(zone(3), 8);
    assert_eq!(store.lookup_one(zone(3)), Ok(8));
    assert_eq!(store.lookup_one(zone(77)), Err(TallyError::NotFound));
}

#[test]
fn distinct_updates_are_all_reflected() {
    let mut store = TallyStore::new(None);
    for raw in 10u8..30 {
        store.update(zone(raw), raw.wrapping_mul(2));
    }
    let snap = store.snapshot();
    for raw in 10u8..30 {
        assert_eq!(snap.get_marchandise(zone(raw)), Some(&(raw * 2)));
    }
    assert_eq!(snap.entries().len(), 26);
}

#[test]
fn entries_are_sorted_by_key() {
    let mut store = TallyStore::new(None);
    store.update(zone(90), 1);
    store.update(zone(8), 2);
    store.update(zone(50), 3);
    let entries = store.snapshot().entries();
    for pair in entries.windows(2) {
        assert!(pair[0].0 < pair[1].0);
    }
    assert_eq!(entries.len(), 9);
}

#[test]
fn snapshot_is_a_point_in_time_copy() {
    let mut store = TallyStore::new(None);
    let before = store.snapshot();
    store.update(zone(1), 9);
    assert_eq!(before.get_marchandise(zone(1)), Some(&0));
    assert_eq!(store.snapshot().get_marchandise(zone(1)), Some(&9));
}

#[test]
fn vehicle_response_wraps_snapshot() {
    let mut store = TallyStore::new(None);
    store.update(zone(4), 4);
    let response = VehicleResponse::new(store.snapshot());
    assert_eq!(response.vehicle_data().get_marchandise(zone(4)), Some(&4));
}

#[test]
fn snapshot_keys_display_as_zone_labels() {
    let store = TallyStore::new(None);
    let labels: Vec<String> = store
        .snapshot()
        .entries()
        .iter()
        .map(|(k, _)| LoadingZone(*k).display())
        .collect();
    assert_eq!(
        labels,
        vec!["zone1", "zone2", "zone3", "zone4", "zone5", "zone6"]
    );
}

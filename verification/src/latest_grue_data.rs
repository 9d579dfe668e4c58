use std::collections::HashMap;

use vstd::prelude::*;

use crate::loading_zone::LoadingZone;

verus! {

broadcast use vstd::std_specs::hash::group_hash_axioms;

/// The tally mapping expected right after creation or reset: every zone of
/// the default roster at zero, and nothing else.
pub open spec fn default_roster() -> Map<u8, u8> {
    Map::new(
        |k: u8| LoadingZone::FIRST_DEFAULT_ZONE <= k <= LoadingZone::LAST_DEFAULT_ZONE,
        |k: u8| 0u8,
    )
}

/// The latest tally per zone, keyed by the raw zone value. Keys present are
/// exactly the default roster plus any zone later written; every key is a
/// valid zone identifier.
#[derive(Debug)]
pub struct LatestGrueData(HashMap<u8, u8>);

impl View for LatestGrueData {
    type V = Map<u8, u8>;

    closed spec fn view(&self) -> Map<u8, u8> {
        self.0@
    }
}

impl LatestGrueData {
    /// Every key recorded so far went through zone validation.
    #[verifier::type_invariant]
    closed spec fn well_formed(self) -> bool {
        forall|k: u8|
            self.0@.contains_key(k) ==> LoadingZone::MIN_ID <= k <= LoadingZone::MAX_ID
    }

    /// Upserts `number_of_merchandise` at `zone_id`: overwrites the entry if
    /// one exists, creates it otherwise. The write is visible to every later
    /// snapshot or lookup.
    pub fn update_data(&mut self, zone_id: LoadingZone, number_of_merchandise: u8)
        requires
            zone_id.valid(),
        ensures
            final(self)@ == old(self)@.insert(zone_id.0, number_of_merchandise),
    {
        proof {
            use_type_invariant(&*self);
        }
        let mut m: HashMap<u8, u8> = HashMap::new();
        std::mem::swap(&mut m, &mut self.0);
        m.insert(zone_id.0, number_of_merchandise);
        self.0 = m;
    }

    /// The current tally for `zone`, if one was ever recorded.
    pub fn get_marchandise(&self, zone: LoadingZone) -> (r: Option<&u8>)
        ensures
            match r {
                Some(v) => self@.contains_key(zone.0) && *v == self@[zone.0],
                None => !self@.contains_key(zone.0),
            },
    {
        self.0.get(&zone.0)
    }

    /// A point-in-time copy of the full mapping.
    pub fn snapshot(&self) -> (r: LatestGrueData)
        ensures
            r@ == self@,
    {
        proof {
            use_type_invariant(&*self);
        }
        LatestGrueData(self.0.clone())
    }

    /// All entries in ascending key order: exactly the mapping's contents,
    /// each key paired with its current tally.
    pub fn entries(&self) -> (r: Vec<(u8, u8)>)
        ensures
            forall|i: int|
                0 <= i < r@.len() ==> self@.contains_key(#[trigger] r@[i].0) && self@[r@[i].0]
                    == r@[i].1,
            forall|k: u8| self@.contains_key(k) ==> exists|i: int|
                0 <= i < r@.len() && #[trigger] r@[i].0 == k,
            forall|i: int, j: int| 0 <= i < j < r@.len() ==> r@[i].0 < r@[j].0,
    {
        proof {
            use_type_invariant(&*self);
        }
        let mut r: Vec<(u8, u8)> = Vec::new();
        let mut k: u16 = LoadingZone::MIN_ID as u16;
        while k <= LoadingZone::MAX_ID as u16
            invariant
                self.well_formed(),
                LoadingZone::MIN_ID as u16 <= k <= LoadingZone::MAX_ID as u16 + 1,
                forall|i: int|
                    0 <= i < r@.len() ==> self@.contains_key(#[trigger] r@[i].0) && self@[r@[i].0]
                        == r@[i].1,
                forall|i: int| 0 <= i < r@.len() ==> #[trigger] r@[i].0 < k,
                forall|q: u8|
                    self@.contains_key(q) && q < k ==> exists|i: int|
                        0 <= i < r@.len() && #[trigger] r@[i].0 == q,
                forall|i: int, j: int| 0 <= i < j < r@.len() ==> r@[i].0 < r@[j].0,
            decreases LoadingZone::MAX_ID as int + 1 - k,
        {
            let key: u8 = k as u8;
            let ghost r_before = r@;
            match self.0.get(&key) {
                Some(v) => r.push((key, *v)),
                None => (),
            }
            k = k + 1;
            proof {
                assert forall|q: u8| self@.contains_key(q) && q < k implies exists|i: int|
                    0 <= i < r@.len() && #[trigger] r@[i].0 == q by {
                    if q < key {
                        let i = choose|i: int| 0 <= i < r_before.len() && #[trigger] r_before[i].0 == q;
                        assert(r@[i].0 == q);
                    } else {
                        assert(q == key);
                        assert(r@[r@.len() - 1].0 == q);
                    }
                }
            }
        }
        r
    }
}

impl Clone for LatestGrueData {
    /// An exact copy of the mapping.
    fn clone(&self) -> (r: Self)
        ensures
            r@ == self@,
    {
        self.snapshot()
    }
}

impl Default for LatestGrueData {
    /// A freshly built mapping holding exactly the default roster, each zone
    /// at zero.
    fn default() -> (r: Self)
        ensures
            r@ == default_roster(),
    {
        let mut m: HashMap<u8, u8> = HashMap::new();
        let mut k: u8 = LoadingZone::FIRST_DEFAULT_ZONE;
        while k <= LoadingZone::LAST_DEFAULT_ZONE
            invariant
                LoadingZone::FIRST_DEFAULT_ZONE <= k <= LoadingZone::LAST_DEFAULT_ZONE + 1,
                m@ =~= Map::new(
                    |j: u8| LoadingZone::FIRST_DEFAULT_ZONE <= j < k,
                    |j: u8| 0u8,
                ),
            decreases LoadingZone::LAST_DEFAULT_ZONE + 1 - k,
        {
            m.insert(k, 0);
            k = k + 1;
        }
        proof {
            assert(m@ =~= default_roster());
        }
        LatestGrueData(m)
    }
}

} // verus!

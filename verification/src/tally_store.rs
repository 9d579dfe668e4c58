use vstd::prelude::*;

use crate::errors::TallyError;
use crate::latest_grue_data::{default_roster, LatestGrueData};
use crate::loading_zone::LoadingZone;
use crate::requests::GrueRequest;

verus! {

/// The authoritative tally container: the mapping from zones to counters,
/// plus an optional lock token fixed at creation. The token is read-only for
/// the store's whole life; when present, it gates `reset`.
#[derive(Debug)]
pub struct TallyStore {
    data: LatestGrueData,
    lock_token: Option<u128>,
}

impl View for TallyStore {
    type V = Map<u8, u8>;

    closed spec fn view(&self) -> Map<u8, u8> {
        self.data@
    }
}

impl TallyStore {
    /// The lock token the store was created with, if any.
    pub closed spec fn token(&self) -> Option<u128> {
        self.lock_token
    }

    /// A store holding a freshly built default roster and the given lock
    /// token.
    pub fn new(lock_token: Option<u128>) -> (r: Self)
        ensures
            r@ == default_roster(),
            r.token() == lock_token,
    {
        TallyStore { data: LatestGrueData::default(), lock_token }
    }

    /// Upserts `value` at `id`: overwrites an existing entry, creates the
    /// entry otherwise. The caller validated `id`; there is no failure path.
    pub fn update(&mut self, id: LoadingZone, value: u8)
        requires
            id.valid(),
        ensures
            final(self)@ == old(self)@.insert(id.0, value),
            final(self).token() == old(self).token(),
    {
        self.data.update_data(id, value);
    }

    /// Validates the raw identifier of `request` and applies the update:
    /// the compute path behind a submit call. Succeeds exactly on raw values
    /// in the accepted zone range; an out-of-range value is rejected and
    /// leaves the store untouched.
    pub fn submit(&mut self, request: &GrueRequest) -> (r: Result<(), TallyError>)
        ensures
            r is Ok <==> LoadingZone::MIN_ID <= request.grue_id <= LoadingZone::MAX_ID,
            r is Ok ==> final(self)@ == old(self)@.insert(
                request.grue_id,
                request.number_of_merchandise,
            ),
            r matches Err(e) ==> *final(self) == *old(self) && e == TallyError::InvalidIdentifier,
            final(self).token() == old(self).token(),
    {
        match LoadingZone::try_from(request.grue_id) {
            Ok(zone_id) => {
                self.update(zone_id, request.number_of_merchandise);
                Ok(())
            },
            Err(e) => Err(e),
        }
    }

    /// A consistent point-in-time copy of the full tally mapping.
    pub fn snapshot(&self) -> (r: LatestGrueData)
        ensures
            r@ == self@,
    {
        self.data.snapshot()
    }

    /// Replaces the whole mapping with a freshly built default roster. When
    /// the store was created with a lock token, only the matching token
    /// authorizes the reset; without one, any call succeeds. A rejected
    /// reset leaves the store untouched, and the token never changes.
    pub fn reset(&mut self, token: Option<u128>) -> (r: Result<(), TallyError>)
        ensures
            match old(self).token() {
                Some(t) => r is Ok <==> token == Some(t),
                None => r is Ok,
            },
            r is Ok ==> final(self)@ == default_roster(),
            r matches Err(e) ==> *final(self) == *old(self) && e == TallyError::Unauthorized,
            final(self).token() == old(self).token(),
    {
        if let Some(t) = self.lock_token {
            let authorized = match token {
                Some(supplied) => supplied == t,
                None => false,
            };
            if !authorized {
                return Err(TallyError::Unauthorized);
            }
        }
        self.data = LatestGrueData::default();
        Ok(())
    }

    /// The current value for `id`, or `NotFound` when `id` was never written
    /// and is not part of the default roster.
    pub fn lookup_one(&self, id: LoadingZone) -> (r: Result<u8, TallyError>)
        ensures
            r is Ok <==> self@.contains_key(id.0),
            r matches Ok(v) ==> v == self@[id.0],
            r matches Err(e) ==> e == TallyError::NotFound,
    {
        match self.data.get_marchandise(id) {
            Some(v) => Ok(*v),
            None => Err(TallyError::NotFound),
        }
    }
}

} // verus!

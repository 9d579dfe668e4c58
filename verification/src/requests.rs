use vstd::prelude::*;

use crate::latest_grue_data::LatestGrueData;

verus! {

/// A submit request as the adapter hands it to the core: the raw zone
/// identifier and the reported number of merchandise.
#[derive(Clone, Copy, PartialEq, Eq, Debug, Structural)]
pub struct GrueRequest {
    pub grue_id: u8,
    pub number_of_merchandise: u8,
}

/// The read-all response payload: a consistent point-in-time copy of the
/// tallies, ready for the adapter to serialize under each zone's display
/// key.
#[derive(Debug)]
pub struct VehicleResponse {
    vehicle_data: LatestGrueData,
}

impl View for VehicleResponse {
    type V = Map<u8, u8>;

    closed spec fn view(&self) -> Map<u8, u8> {
        self.vehicle_data@
    }
}

impl VehicleResponse {
    /// Wraps a tally snapshot for the read-all response.
    pub fn new(vehicle_data: LatestGrueData) -> (r: Self)
        ensures
            r@ == vehicle_data@,
    {
        VehicleResponse { vehicle_data }
    }

    /// The wrapped snapshot.
    pub fn vehicle_data(&self) -> (r: &LatestGrueData)
        ensures
            r@ == self@,
    {
        &self.vehicle_data
    }
}

} // verus!

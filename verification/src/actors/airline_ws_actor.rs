use vstd::prelude::*;

verus! {

/// A request to an airline: the origin and the destination of the flight.
pub struct ReserveFlight(pub String, pub String);

/// Stands for an airline web service, which approves or refuses reserves.
pub struct AirlineWsActor {
    pub id: String,
}

} // verus!

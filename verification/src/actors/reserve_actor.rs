use vstd::prelude::*;
use crate::reserve_line::{wants_hotel, no_hotel};
use crate::web_service::{next_airline_step, AirlineStep};
use super::flight::{Flight, FlightView};
use super::package::{Package, PackageView};
use super::reserve::Reserve;
use super::route::{Route, RouteView};

verus! {

/// What a received reserve becomes: a flight alone, or a package.
pub enum ReservePlan {
    Flight(Flight),
    Package(Package),
}

/// Decides what a reserve asks for: a flight on its route with its airline
/// when its hotel field is the mark of no hotel, a package with the hotel
/// otherwise; and the route under which the statistics count it.
pub fn plan_reserve(reserve: &Reserve) -> (plan: (ReservePlan, Route))
    ensures
        plan.1@ == (RouteView { origin: reserve@.origin, destination: reserve@.destination }),
        reserve@.hotel == no_hotel() <==> plan.0 is Flight,
        plan.0 matches ReservePlan::Flight(f) ==> f@ == (FlightView {
            route: plan.1@,
            airline: reserve@.airline,
        }),
        plan.0 matches ReservePlan::Package(p) ==> p@ == (PackageView {
            route: plan.1@,
            airline: reserve@.airline,
            hotel: reserve@.hotel,
        }),
{
    let origin = reserve.get_origin();
    let destination = reserve.get_destination();
    let airline = reserve.get_airline();
    let hotel = reserve.get_hotel();
    let route = Route::new(origin, destination);
    if wants_hotel(hotel.as_str()) {
        (ReservePlan::Package(Package::new(route.clone(), airline, hotel)), route)
    } else {
        (ReservePlan::Flight(Flight::new(route.clone(), airline)), route)
    }
}

/// The flight part of a package: its route with its airline.
pub fn package_flight(package: &Package) -> (flight: Flight)
    ensures
        flight@ == (FlightView { route: package@.route, airline: package@.airline }),
{
    Flight::new(package.get_route(), package.get_airline())
}

/// What to do after an airline answered: stop when it approved, otherwise
/// send the same flight again at once.
pub fn after_airline_reply(approved: bool) -> (step: AirlineStep)
    ensures
        approved ==> step is Approved,
        !approved ==> step == AirlineStep::RetryAfter(0),
{
    next_airline_step(approved, 0)
}

} // verus!

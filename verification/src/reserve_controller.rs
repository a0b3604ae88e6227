pub mod controller;
pub mod flight;
pub mod package;
pub mod reserve;
pub mod route;
pub mod stats;

use vstd::prelude::*;
use crate::reserve_line::{reserve_fields, wants_hotel, is_reserve_line, line_fields, no_hotel};
use crate::web_service::{next_airline_step, AirlineStep};
use self::flight::{Flight, FlightView};
use self::package::{Package, PackageView};
use self::route::{Route, RouteView};

verus! {

/// Seconds to wait before asking an airline again after it refused a reserve.
pub const DELAY_BETWEEN_RETRIES_SECONDS: u64 = 5;

/// How many requests the airline web service takes at once.
pub const WEBSERVICE_AIRLINE_LIMIT: isize = 10;

/// How many requests the hotel web service takes at once.
pub const WEBSERVICE_HOTEL_LIMIT: isize = 5;

/// Seconds between two listings of the route statistics.
pub const STATS_LOG_PERIOD: u64 = 1;

/// A reserve read from a line: a flight alone, or a package of a flight and a hotel.
pub enum Reservation {
    Flight(Flight),
    Package(Package),
}

/// Reads a reserve line into the reserve it asks for and the route it
/// counts for: a flight when its hotel field is the mark of no hotel, a
/// package otherwise.
pub fn parse_reserve(line: &str) -> (parsed: (Reservation, Route))
    requires
        is_reserve_line(line@),
    ensures
        parsed.1@ == (RouteView { origin: line_fields(line@)[0], destination: line_fields(line@)[1] }),
        line_fields(line@)[3] == no_hotel() <==> parsed.0 is Flight,
        parsed.0 matches Reservation::Flight(f) ==> f@ == (FlightView {
            origin: line_fields(line@)[0],
            destination: line_fields(line@)[1],
            airline: line_fields(line@)[2],
        }),
        parsed.0 matches Reservation::Package(p) ==> p@ == (PackageView {
            origin: line_fields(line@)[0],
            destination: line_fields(line@)[1],
            airline: line_fields(line@)[2],
            hotel: line_fields(line@)[3],
        }),
{
    let (origin, destination, airline, hotel) = reserve_fields(line);
    let route = Route::new(origin.clone(), destination.clone());
    if wants_hotel(hotel.as_str()) {
        (Reservation::Package(Package::new(origin, destination, airline, hotel)), route)
    } else {
        (Reservation::Flight(Flight::new(origin, destination, airline)), route)
    }
}

/// What to do after the airline answered a request: stop when it approved,
/// otherwise ask again after `DELAY_BETWEEN_RETRIES_SECONDS`.
pub fn after_airline_reply(approved: bool) -> (step: AirlineStep)
    ensures
        approved ==> step is Approved,
        !approved ==> step == AirlineStep::RetryAfter(DELAY_BETWEEN_RETRIES_SECONDS),
{
    next_airline_step(approved, DELAY_BETWEEN_RETRIES_SECONDS)
}

} // verus!

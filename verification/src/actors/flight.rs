use vstd::prelude::*;
use super::route::{Route, RouteView};

verus! {

/// A flight: a route and the airline that flies it.
pub struct Flight {
    route: Route,
    airline: String,
}

/// What a flight holds.
pub struct FlightView {
    pub route: RouteView,
    pub airline: Seq<char>,
}

impl View for Flight {
    type V = FlightView;

    closed spec fn view(&self) -> FlightView {
        FlightView { route: self.route@, airline: self.airline@ }
    }
}

impl Flight {
    pub fn new(route: Route, airline: String) -> (flight: Flight)
        ensures
            flight@ == (FlightView { route: route@, airline: airline@ }),
    {
        Flight { route, airline }
    }

    pub fn get_route(&self) -> (route: Route)
        ensures
            route@ == self@.route,
    {
        self.route.clone()
    }

    pub fn get_airline(&self) -> (airline: String)
        ensures
            airline@ == self@.airline,
    {
        self.airline.clone()
    }
}

} // verus!

use vstd::prelude::*;
use super::route::{Route, RouteView};

verus! {

/// A package: a flight on a route with an airline, and a hotel.
pub struct Package {
    route: Route,
    airline: String,
    hotel: String,
}

/// What a package holds.
pub struct PackageView {
    pub route: RouteView,
    pub airline: Seq<char>,
    pub hotel: Seq<char>,
}

impl View for Package {
    type V = PackageView;

    closed spec fn view(&self) -> PackageView {
        PackageView { route: self.route@, airline: self.airline@, hotel: self.hotel@ }
    }
}

impl Package {
    pub fn new(route: Route, airline: String, hotel: String) -> (package: Package)
        ensures
            package@ == (PackageView { route: route@, airline: airline@, hotel: hotel@ }),
    {
        Package { route, airline, hotel }
    }

    pub fn get_route(&self) -> (route: Route)
        ensures
            route@ == self@.route,
    {
        self.route.clone()
    }

    pub fn get_airline(&self) -> (airline: String)
        ensures
            airline@ == self@.airline,
    {
        self.airline.clone()
    }

    pub fn get_hotel(&self) -> (hotel: String)
        ensures
            hotel@ == self@.hotel,
    {
        self.hotel.clone()
    }
}

} // verus!

use vstd::prelude::*;
use crate::text::{route_id, route_id_of};

verus! {

/// A route between two places.
pub struct Route {
    origin: String,
    destination: String,
}

/// What a route holds.
pub struct RouteView {
    pub origin: Seq<char>,
    pub destination: Seq<char>,
}

impl View for Route {
    type V = RouteView;

    closed spec fn view(&self) -> RouteView {
        RouteView { origin: self.origin@, destination: self.destination@ }
    }
}

impl Route {
    pub fn new(origin: String, destination: String) -> (route: Route)
        ensures
            route@ == (RouteView { origin: origin@, destination: destination@ }),
    {
        Route { origin, destination }
    }

    /// The route's identifier: origin, underscore, destination.
    pub fn get_id(&self) -> (id: String)
        ensures
            id@ == route_id_of(self@.origin, self@.destination),
    {
        route_id(self.origin.as_str(), self.destination.as_str())
    }
}

} // verus!

use vstd::prelude::*;

verus! {

/// A route between two places.
pub struct Route {
    origin: String,
    destination: String,
}

/// What a route holds.
pub struct RouteView {
    pub origin: Seq<char>,
    pub destination: Seq<char>,
}

impl View for Route {
    type V = RouteView;

    closed spec fn view(&self) -> RouteView {
        RouteView { origin: self.origin@, destination: self.destination@ }
    }
}

impl Route {
    pub fn new(origin: String, destination: String) -> (route: Route)
        ensures
            route@ == (RouteView { origin: origin@, destination: destination@ }),
    {
        Route { origin, destination }
    }

    pub fn get_origin(&self) -> (origin: String)
        ensures
            origin@ == self@.origin,
    {
        self.origin.clone()
    }

    pub fn get_destination(&self) -> (destination: String)
        ensures
            destination@ == self@.destination,
    {
        self.destination.clone()
    }

    /// A route with the same origin and destination.
    pub fn clone(&self) -> (route: Route)
        ensures
            route@ == self@,
    {
        Route::new(self.origin.clone(), self.destination.clone())
    }
}

} // verus!

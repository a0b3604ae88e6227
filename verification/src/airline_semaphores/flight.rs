use vstd::prelude::*;

verus! {

/// A flight reserve, with what it needs: origin, destination and airline.
pub struct Flight {
    origin: String,
    destination: String,
    airline: String,
}

/// What a flight reserve holds.
pub struct FlightView {
    pub origin: Seq<char>,
    pub destination: Seq<char>,
    pub airline: Seq<char>,
}

impl View for Flight {
    type V = FlightView;

    closed spec fn view(&self) -> FlightView {
        FlightView { origin: self.origin@, destination: self.destination@, airline: self.airline@ }
    }
}

impl Flight {
    pub fn new(origin: String, destination: String, airline: String) -> (flight: Flight)
        ensures
            flight@ == (FlightView { origin: origin@, destination: destination@, airline: airline@ }),
    {
        Flight { origin, destination, airline }
    }

    pub fn get_origin(&self) -> (origin: String)
        ensures
            origin@ == self@.origin,
    {
        self.origin.clone()
    }

    pub fn get_destination(&self) -> (destination: String)
        ensures
            destination@ == self@.destination,
    {
        self.destination.clone()
    }

    pub fn get_airline(&self) -> (airline: String)
        ensures
            airline@ == self@.airline,
    {
        self.airline.clone()
    }
}

} // verus!

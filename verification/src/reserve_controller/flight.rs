use vstd::prelude::*;

verus! {

/// A reserve of a flight alone.
pub struct Flight {
    origin: String,
    destination: String,
    airline: String,
}

/// What a flight reserve holds.
pub struct FlightView {
    pub origin: Seq<char>,
    pub destination: Seq<char>,
    pub airline: Seq<char>,
}

impl View for Flight {
    type V = FlightView;

    closed spec fn view(&self) -> FlightView {
        FlightView { origin: self.origin@, destination: self.destination@, airline: self.airline@ }
    }
}

impl Flight {
    pub fn new(origin: String, destination: String, airline: String) -> (flight: Flight)
        ensures
            flight@ == (FlightView { origin: origin@, destination: destination@, airline: airline@ }),
    {
        Flight { origin, destination, airline }
    }
}

} // verus!

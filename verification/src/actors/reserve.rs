use vstd::prelude::*;

verus! {

/// A reserve as received: origin, destination, airline and hotel.
pub struct Reserve {
    origin: String,
    destination: String,
    airline: String,
    hotel: String,
}

/// What a reserve holds.
pub struct ReserveView {
    pub origin: Seq<char>,
    pub destination: Seq<char>,
    pub airline: Seq<char>,
    pub hotel: Seq<char>,
}

impl View for Reserve {
    type V = ReserveView;

    closed spec fn view(&self) -> ReserveView {
        ReserveView {
            origin: self.origin@,
            destination: self.destination@,
            airline: self.airline@,
            hotel: self.hotel@,
        }
    }
}

impl Reserve {
    pub fn new(origin: String, destination: String, airline: String, hotel: String) -> (reserve:
        Reserve)
        ensures
            reserve@ == (ReserveView {
                origin: origin@,
                destination: destination@,
                airline: airline@,
                hotel: hotel@,
            }),
    {
        Reserve { origin, destination, airline, hotel }
    }

    pub fn get_origin(&self) -> (origin: String)
        ensures
            origin@ == self@.origin,
    {
        self.origin.clone()
    }

    pub fn get_destination(&self) -> (destination: String)
        ensures
            destination@ == self@.destination,
    {
        self.destination.clone()
    }

    pub fn get_airline(&self) -> (airline: String)
        ensures
            airline@ == self@.airline,
    {
        self.airline.clone()
    }

    pub fn get_hotel(&self) -> (hotel: String)
        ensures
            hotel@ == self@.hotel,
    {
        self.hotel.clone()
    }

    /// A reserve with the same four fields.
    pub fn clone(&self) -> (reserve: Reserve)
        ensures
            reserve@ == self@,
    {
        Reserve::new(
            self.origin.clone(),
            self.destination.clone(),
            self.airline.clone(),
            self.hotel.clone(),
        )
    }
}

} // verus!

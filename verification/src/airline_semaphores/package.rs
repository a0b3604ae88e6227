use vstd::prelude::*;

verus! {

/// A reserve of a flight together with a hotel.
pub struct Package {
    origin: String,
    destination: String,
    airline: String,
    hotel: String,
}

/// What a package reserve holds.
pub struct PackageView {
    pub origin: Seq<char>,
    pub destination: Seq<char>,
    pub airline: Seq<char>,
    pub hotel: Seq<char>,
}

impl View for Package {
    type V = PackageView;

    closed spec fn view(&self) -> PackageView {
        PackageView {
            origin: self.origin@,
            destination: self.destination@,
            airline: self.airline@,
            hotel: self.hotel@,
        }
    }
}

impl Package {
    pub fn new(origin: String, destination: String, airline: String, hotel: String) -> (package:
        Package)
        ensures
            package@ == (PackageView {
                origin: origin@,
                destination: destination@,
                airline: airline@,
                hotel: hotel@,
            }),
    {
        Package { origin, destination, airline, hotel }
    }

    pub fn get_origin(&self) -> (origin: String)
        ensures
            origin@ == self@.origin,
    {
        self.origin.clone()
    }

    pub fn get_destination(&self) -> (destination: String)
        ensures
            destination@ == self@.destination,
    {
        self.destination.clone()
    }

    pub fn get_airline(&self) -> (airline: String)
        ensures
            airline@ == self@.airline,
    {
        self.airline.clone()
    }

    pub fn get_hotel(&self) -> (hotel: String)
        ensures
            hotel@ == self@.hotel,
    {
        self.hotel.clone()
    }
}

} // verus!

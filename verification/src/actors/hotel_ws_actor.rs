use vstd::prelude::*;

verus! {

/// A request to a hotel, for the destination it names.
pub struct ReserveHotel(pub String);

/// Stands for a hotel web service, which approves every reserve.
pub struct HotelWsActor {
    pub id: String,
}

} // verus!

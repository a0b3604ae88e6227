use vstd::prelude::*;

verus! {

/// A reserve that asks an airline, and a hotel, through the given services.
pub trait Reserve {
    fn reserve_airline<F: Fn(String, String) -> bool>(&self, reserve: &F);

    fn reserve_hotel<F: Fn(String) -> bool>(&self, reserve: &F);
}

} // verus!

use vstd::prelude::*;
use vstd::hash_map::StringHashMap;
use std::sync::Arc;
use std_semaphore::Semaphore;

verus! {

#[verifier::external_type_specification]
#[verifier::external_body]
pub struct ExSemaphore(Semaphore);

/// How many requests each airline's web service takes at once.
pub const WEBSERVICE_AIRLINE_LIMIT: isize = 10;

/// The number of permits a semaphore was made with.
pub uninterp spec fn initial_permits(s: Semaphore) -> isize;

/// `std_semaphore::Semaphore::new`: a semaphore with `count` permits; its
/// source sets the semaphore's counter to `count` and does nothing else.
#[verifier::external_body]
fn new_semaphore(count: isize) -> (s: Semaphore)
    ensures
        initial_permits(s) == count,
{
    Semaphore::new(count)
}

/// Maps each airline to the semaphore that bounds the requests to it.
pub struct AirlinesSemaphore {
    semaphores_by_airline: StringHashMap<Arc<Semaphore>>,
}

impl View for AirlinesSemaphore {
    type V = Map<Seq<char>, Arc<Semaphore>>;

    closed spec fn view(&self) -> Map<Seq<char>, Arc<Semaphore>> {
        self.semaphores_by_airline@
    }
}

impl AirlinesSemaphore {
    /// No airline registered.
    pub fn new() -> (airlines: AirlinesSemaphore)
        ensures
            airlines@ == Map::<Seq<char>, Arc<Semaphore>>::empty(),
    {
        let semaphores_by_airline = StringHashMap::new();
        AirlinesSemaphore { semaphores_by_airline }
    }

    /// The semaphore of the airline, if it is registered.
    pub fn get_airline_semaphore(&self, airline: String) -> (semaphore: Option<&Arc<Semaphore>>)
        ensures
            match semaphore {
                Some(s) => self@.contains_key(airline@) && *s == self@[airline@],
                None => !self@.contains_key(airline@),
            },
    {
        self.semaphores_by_airline.get(airline.as_str())
    }

    /// Registers the airline with a new semaphore of
    /// `WEBSERVICE_AIRLINE_LIMIT` permits, replacing any it had; the other
    /// airlines keep theirs.
    pub fn insert_airline_semaphore(&mut self, airline: String)
        ensures
            final(self)@ == old(self)@.insert(airline@, final(self)@[airline@]),
            initial_permits(*final(self)@[airline@]) == WEBSERVICE_AIRLINE_LIMIT,
    {
        let semaphore = Arc::new(new_semaphore(WEBSERVICE_AIRLINE_LIMIT));
        self.semaphores_by_airline.insert(airline, semaphore);
    }
}

} // verus!

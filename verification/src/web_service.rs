use vstd::prelude::*;
use rand::Rng;
use rand::rngs::ThreadRng;

verus! {

#[verifier::external_type_specification]
#[verifier::external_body]
pub struct ExThreadRng(ThreadRng);

/// The simulated services answer after a whole number of seconds below this bound.
pub const MAX_DELAY_SECONDS: u64 = 10;

/// An airline's answer is drawn below this bound...
pub const RESPONSE_DRAWS: u64 = 10;

/// ...and approves the reserve when it is at most this value.
pub const HIGHEST_APPROVING_RESPONSE: u64 = 5;

/// `rand::thread_rng`: the generator of the calling thread. Nothing is
/// claimed of it.
#[verifier::external_body]
fn thread_rng() -> ThreadRng {
    rand::thread_rng()
}

/// `Rng::gen_range` on `0..bound`: a number drawn below `bound`. It panics on
/// an empty range, which `requires` leaves out; what number comes out is
/// chance, so only its range is claimed.
#[verifier::external_body]
fn gen_below(rng: &mut ThreadRng, bound: u64) -> (n: u64)
    requires
        bound > 0,
    ensures
        n < bound,
{
    rng.gen_range(0..bound)
}

/// What a simulated airline answers: how long it takes, and the number it drew.
pub struct AirlineReply {
    pub delay_seconds: u64,
    pub response: u64,
}

/// Whether an airline's drawn response approves the reserve.
pub fn approves(response: u64) -> (approved: bool)
    ensures
        approved == (response <= HIGHEST_APPROVING_RESPONSE),
{
    response <= HIGHEST_APPROVING_RESPONSE
}

/// Draws what a simulated airline web service answers: first the seconds it
/// takes, then the number that decides the approval.
pub fn draw_airline_reply() -> (reply: AirlineReply)
    ensures
        reply.delay_seconds < MAX_DELAY_SECONDS,
        reply.response < RESPONSE_DRAWS,
{
    let mut rng = thread_rng();
    let delay_seconds = gen_below(&mut rng, MAX_DELAY_SECONDS);
    let response = gen_below(&mut rng, RESPONSE_DRAWS);
    AirlineReply { delay_seconds, response }
}

impl AirlineReply {
    /// Whether this answer approves the reserve.
    pub fn approved(&self) -> (approved: bool)
        ensures
            approved == (self.response <= HIGHEST_APPROVING_RESPONSE),
    {
        approves(self.response)
    }
}

/// Draws how many seconds a simulated hotel web service takes to answer; it
/// always approves.
pub fn draw_hotel_delay() -> (seconds: u64)
    ensures
        seconds < MAX_DELAY_SECONDS,
{
    let mut rng = thread_rng();
    gen_below(&mut rng, MAX_DELAY_SECONDS)
}

/// What to do once an airline has answered.
pub enum AirlineStep {
    /// The airline approved: the reserve of the flight is done.
    Approved,
    /// The airline refused: ask again after waiting this many seconds.
    RetryAfter(u64),
}

/// The step after an airline's answer: done when it approved, otherwise a
/// new request after `retry_delay_seconds`.
pub fn next_airline_step(approved: bool, retry_delay_seconds: u64) -> (step: AirlineStep)
    ensures
        approved ==> step is Approved,
        !approved ==> step == AirlineStep::RetryAfter(retry_delay_seconds),
{
    if approved {
        AirlineStep::Approved
    } else {
        AirlineStep::RetryAfter(retry_delay_seconds)
    }
}

} // verus!

use vstd::prelude::*;
use crate::route_counter::RouteCounter;
use crate::text::{route_id, route_id_of};
use crate::timing::{sum_times, total_time};
use super::route::Route;

verus! {

/// A request for the statistics to be listed.
pub struct GetStats;

/// A request for the statistics to be listed, again and again.
pub struct Loop;

/// The statistics of the reserves: how many asked for each route, and how
/// long each took to process.
pub struct Stats {
    routes: RouteCounter,
    reserve_processing_times: Vec<u64>,
}

/// What the statistics hold: the count of each route, by identifier, and the
/// processing times in the order in which they were added.
pub struct StatsView {
    pub routes: Map<Seq<char>, u32>,
    pub processing_times: Seq<u64>,
}

impl View for Stats {
    type V = StatsView;

    closed spec fn view(&self) -> StatsView {
        StatsView { routes: self.routes@, processing_times: self.reserve_processing_times@ }
    }
}

/// The mean of the processing times, rounded down, or 0 when there are none.
pub open spec fn average_time(times: Seq<u64>) -> int {
    if times.len() == 0 {
        0
    } else {
        total_time(times) / (times.len() as int)
    }
}

/// The average is the total of all the times divided by their number,
/// rounded down: times their number it reaches the total but not the total
/// less that number; with no times it is 0.
pub proof fn lemma_average_divides_total(times: Seq<u64>)
    ensures
        times.len() == 0 ==> average_time(times) == 0,
        times.len() > 0 ==> average_time(times) * times.len() <= total_time(times) < (
        average_time(times) + 1) * times.len(),
{
    if times.len() > 0 {
        let n = times.len() as int;
        let t = total_time(times);
        let a = t / n;
        assert(a * n <= t < (a + 1) * n) by (nonlinear_arith)
            requires
                n > 0,
                a == t / n,
        ;
    }
}

impl Stats {
    pub closed spec fn wf(&self) -> bool {
        self.routes.wf()
    }

    /// Empty statistics.
    pub fn new() -> (stats: Stats)
        ensures
            stats.wf(),
            stats@.routes == Map::<Seq<char>, u32>::empty(),
            stats@.processing_times == Seq::<u64>::empty(),
    {
        let routes = RouteCounter::new();
        let reserve_processing_times = Vec::new();
        Stats { routes, reserve_processing_times }
    }

    /// Counts one more reserve for the route, under its identifier.
    pub fn increment_route_counter(&mut self, route: Route)
        requires
            old(self).wf(),
            old(self)@.routes.contains_key(route_id_of(route@.origin, route@.destination))
                ==> old(self)@.routes[route_id_of(route@.origin, route@.destination)] < u32::MAX,
        ensures
            final(self).wf(),
            final(self)@.routes == old(self)@.routes.insert(
                route_id_of(route@.origin, route@.destination),
                RouteCounter::incremented(
                    old(self)@.routes,
                    route_id_of(route@.origin, route@.destination),
                ),
            ),
            final(self)@.processing_times == old(self)@.processing_times,
    {
        let origin = route.get_origin();
        let destination = route.get_destination();
        let id = route_id(origin.as_str(), destination.as_str());
        self.routes.increment(id);
    }

    /// Every counted route with its count, each route once.
    pub fn get_routes(&self) -> (routes: Vec<(String, u32)>)
        requires
            self.wf(),
        ensures
            forall|i: int|
                0 <= i < routes.len() ==> self@.routes.contains_key((#[trigger] routes@[i]).0@)
                    && self@.routes[routes@[i].0@] == routes@[i].1,
            forall|k: Seq<char>|
                self@.routes.contains_key(k) ==> exists|i: int|
                    0 <= i < routes.len() && (#[trigger] routes@[i]).0@ == k,
            forall|i: int, j: int|
                0 <= i < j < routes.len() ==> (#[trigger] routes@[i]).0@ != (#[trigger] routes@[j]).0@,
    {
        self.routes.entries()
    }

    /// The processing times, in the order in which they were added.
    pub fn get_reserve_processing_time(&self) -> (times: Vec<u64>)
        ensures
            times@ == self@.processing_times,
    {
        self.reserve_processing_times.clone()
    }

    /// Records how long one more reserve took to process.
    pub fn add_reserve_processing_time(&mut self, time: u64)
        ensures
            final(self)@.processing_times == old(self)@.processing_times.push(time),
            final(self)@.routes == old(self)@.routes,
            old(self).wf() ==> final(self).wf(),
    {
        self.reserve_processing_times.push(time);
    }

    /// The mean processing time, rounded down, or 0 when no time was added.
    /// The sum of the times must fit in a `u64`.
    pub fn get_avg_reserve_processing_time(&self) -> (avg: u64)
        requires
            total_time(self@.processing_times) <= u64::MAX,
        ensures
            avg == average_time(self@.processing_times),
    {
        let times = self.get_reserve_processing_time();
        let total = sum_times(&times);
        let count = times.len() as u64;
        if count != 0 {
            total / count
        } else {
            total
        }
    }
}

impl Default for Stats {
    fn default() -> (stats: Stats)
        ensures
            stats.wf(),
            stats@.routes == Map::<Seq<char>, u32>::empty(),
            stats@.processing_times == Seq::<u64>::empty(),
    {
        Self::new()
    }
}

} // verus!

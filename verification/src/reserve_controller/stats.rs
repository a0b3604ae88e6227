use vstd::prelude::*;
use crate::route_counter::RouteCounter;
use crate::text::route_id_of;
use crate::timing::{sum_times, total_time};
use super::route::Route;

verus! {

/// The statistics of the reserves: how many asked for each route, and how
/// long each took to process.
pub struct Stats {
    routes: RouteCounter,
    reserve_processing_times: Vec<u64>,
}

/// What the statistics hold: the count of each route, by identifier, and the
/// processing times in the order in which they were added.
pub struct StatsView {
    pub routes: Map<Seq<char>, u32>,
    pub processing_times: Seq<u64>,
}

impl View for Stats {
    type V = StatsView;

    closed spec fn view(&self) -> StatsView {
        StatsView { routes: self.routes@, processing_times: self.reserve_processing_times@ }
    }
}

impl Stats {
    pub closed spec fn wf(&self) -> bool {
        self.routes.wf()
    }

    /// Empty statistics.
    pub fn new() -> (stats: Stats)
        ensures
            stats.wf(),
            stats@.routes == Map::<Seq<char>, u32>::empty(),
            stats@.processing_times == Seq::<u64>::empty(),
    {
        let routes = RouteCounter::new();
        let reserve_processing_times = Vec::new();
        Stats { routes, reserve_processing_times }
    }

    /// Counts one more reserve for the route.
    pub fn increment_route_counter(&mut self, route: Route)
        requires
            old(self).wf(),
            old(self)@.routes.contains_key(route_id_of(route@.origin, route@.destination))
                ==> old(self)@.routes[route_id_of(route@.origin, route@.destination)] < u32::MAX,
        ensures
            final(self).wf(),
            final(self)@.routes == old(self)@.routes.insert(
                route_id_of(route@.origin, route@.destination),
                RouteCounter::incremented(
                    old(self)@.routes,
                    route_id_of(route@.origin, route@.destination),
                ),
            ),
            final(self)@.processing_times == old(self)@.processing_times,
    {
        let route_id = route.get_id();
        self.routes.increment(route_id);
    }

    /// Every counted route with its count, each route once.
    pub fn get_routes(&self) -> (routes: Vec<(String, u32)>)
        requires
            self.wf(),
        ensures
            forall|i: int|
                0 <= i < routes.len() ==> self@.routes.contains_key((#[trigger] routes@[i]).0@)
                    && self@.routes[routes@[i].0@] == routes@[i].1,
            forall|k: Seq<char>|
                self@.routes.contains_key(k) ==> exists|i: int|
                    0 <= i < routes.len() && (#[trigger] routes@[i]).0@ == k,
            forall|i: int, j: int|
                0 <= i < j < routes.len() ==> (#[trigger] routes@[i]).0@ != (#[trigger] routes@[j]).0@,
    {
        self.routes.entries()
    }

    /// The processing times, in the order in which they were added.
    pub fn get_reserve_processing_time(&self) -> (times: Vec<u64>)
        ensures
            times@ == self@.processing_times,
    {
        self.reserve_processing_times.clone()
    }

    /// Records how long one more reserve took to process.
    pub fn add_reserve_processing_time(&mut self, time: u64)
        ensures
            final(self)@.processing_times == old(self)@.processing_times.push(time),
            final(self)@.routes == old(self)@.routes,
            old(self).wf() ==> final(self).wf(),
    {
        self.reserve_processing_times.push(time);
    }

    /// The mean processing time, rounded down. There must be at least one
    /// time, and their sum must fit in a `u64`.
    pub fn get_avg_reserve_processing_time(&self) -> (avg: u64)
        requires
            self@.processing_times.len() > 0,
            total_time(self@.processing_times) <= u64::MAX,
        ensures
            avg == total_time(self@.processing_times) / (self@.processing_times.len() as int),
    {
        let times = self.get_reserve_processing_time();
        let total = sum_times(&times);
        let count = times.len() as u64;
        total / count
    }
}

} // verus!

use vstd::prelude::*;
use vstd::hash_map::StringHashMap;
use crate::text::string_views;

verus! {

/// How many reserves asked for each route, keyed by the route's identifier.
/// Besides the map it keeps the identifiers in the order in which they were
/// first counted, so that the counts can be listed.
pub struct RouteCounter {
    counts: StringHashMap<u32>,
    ids: Vec<String>,
}

impl View for RouteCounter {
    type V = Map<Seq<char>, u32>;

    closed spec fn view(&self) -> Map<Seq<char>, u32> {
        self.counts@
    }
}

impl RouteCounter {
    /// The identifiers listed once each, exactly those that have a count.
    pub closed spec fn wf(&self) -> bool {
        &&& string_views(self.ids@).no_duplicates()
        &&& forall|k: Seq<char>| self.counts@.contains_key(k) <==> string_views(self.ids@).contains(k)
    }

    /// The count that `increment` leaves for `id`.
    pub open spec fn incremented(counts: Map<Seq<char>, u32>, id: Seq<char>) -> u32 {
        if counts.contains_key(id) {
            (counts[id] + 1) as u32
        } else {
            1
        }
    }

    /// An empty counter.
    pub fn new() -> (counter: Self)
        ensures
            counter.wf(),
            counter@ == Map::<Seq<char>, u32>::empty(),
    {
        let counter = RouteCounter { counts: StringHashMap::new(), ids: Vec::new() };
        assert(string_views(counter.ids@) =~= Seq::<Seq<char>>::empty());
        counter
    }

    /// Counts one more reserve for the route `id`.
    pub fn increment(&mut self, id: String)
        requires
            old(self).wf(),
            old(self)@.contains_key(id@) ==> old(self)@[id@] < u32::MAX,
        ensures
            final(self).wf(),
            final(self)@ == old(self)@.insert(id@, Self::incremented(old(self)@, id@)),
    {
        let current = self.counts.get(id.as_str());
        match current {
            Some(count) => {
                let next = *count + 1;
                self.counts.insert(id, next);
            },
            None => {
                let ghost before = self.ids@;
                let key = id.clone();
                self.counts.insert(id, 1);
                self.ids.push(key);
                proof {
                    assert(string_views(self.ids@) =~= string_views(before).push(key@));
                    assert(!string_views(before).contains(key@));
                    assert forall|a: int, b: int|
                        0 <= a < b < string_views(self.ids@).len() implies string_views(
                        self.ids@,
                    )[a] != string_views(self.ids@)[b] by {
                        if b == before.len() {
                            assert(string_views(before)[a] == string_views(self.ids@)[a]);
                        }
                    }
                    assert forall|k: Seq<char>|
                        string_views(self.ids@).contains(k) implies self.counts@.contains_key(k) by {
                        if k != key@ {
                            let j = choose|j: int|
                                0 <= j < string_views(self.ids@).len() && string_views(
                                    self.ids@,
                                )[j] == k;
                            assert(j < before.len());
                            assert(string_views(before)[j] == k);
                        }
                    }
                    assert forall|k: Seq<char>|
                        self.counts@.contains_key(k) implies string_views(self.ids@).contains(k) by {
                        if k == key@ {
                            assert(string_views(self.ids@)[before.len() as int] == k);
                        } else {
                            let j = choose|j: int|
                                0 <= j < string_views(before).len() && string_views(before)[j] == k;
                            assert(string_views(self.ids@)[j] == k);
                        }
                    }
                }
            },
        }
    }

    /// Every counted route with its count, in the order in which the routes
    /// were first counted.
    pub fn entries(&self) -> (entries: Vec<(String, u32)>)
        requires
            self.wf(),
        ensures
            forall|i: int|
                0 <= i < entries.len() ==> self@.contains_key((#[trigger] entries@[i]).0@)
                    && self@[entries@[i].0@] == entries@[i].1,
            forall|k: Seq<char>|
                self@.contains_key(k) ==> exists|i: int|
                    0 <= i < entries.len() && (#[trigger] entries@[i]).0@ == k,
            forall|i: int, j: int|
                0 <= i < j < entries.len() ==> (#[trigger] entries@[i]).0@ != (#[trigger] entries@[j]).0@,
    {
        let mut entries: Vec<(String, u32)> = Vec::new();
        let n = self.ids.len();
        let mut i: usize = 0;
        while i < n
            invariant
                self.wf(),
                n == self.ids.len(),
                i <= n,
                entries.len() == i,
                forall|j: int|
                    0 <= j < i ==> (#[trigger] entries@[j]).0@ == self.ids@[j]@
                        && self@.contains_key(entries@[j].0@) && self@[entries@[j].0@] == entries@[j].1,
            decreases n - i,
        {
            let key = &self.ids[i];
            assert(string_views(self.ids@)[i as int] == key@);
            match self.counts.get(key.as_str()) {
                Some(count) => {
                    entries.push((key.clone(), *count));
                },
                None => {
                    assert(false);
                },
            }
            i = i + 1;
        }
        proof {
            assert forall|k: Seq<char>| self@.contains_key(k) implies exists|j: int|
                0 <= j < entries.len() && (#[trigger] entries@[j]).0@ == k by {
                let j = choose|j: int|
                    0 <= j < string_views(self.ids@).len() && string_views(self.ids@)[j] == k;
                assert(entries@[j].0@ == k);
            }
            assert forall|a: int, b: int| 0 <= a < b < entries.len() implies (
            #[trigger] entries@[a]).0@ != (#[trigger] entries@[b]).0@ by {
                assert(string_views(self.ids@)[a] == entries@[a].0@);
                assert(string_views(self.ids@)[b] == entries@[b].0@);
            }
        }
        entries
    }
}

/// How many times `id` occurs in the history of counted routes.
pub open spec fn times_requested(history: Seq<Seq<char>>, id: Seq<char>) -> nat
    decreases history.len(),
{
    if history.len() == 0 {
        0
    } else {
        times_requested(history.drop_last(), id) + if history.last() == id { 1nat } else { 0nat }
    }
}

/// The counts tell, for every route, how many times the history holds it:
/// a route is counted exactly when it occurs.
pub open spec fn counts_match_history(counts: Map<Seq<char>, u32>, history: Seq<Seq<char>>) -> bool {
    forall|k: Seq<char>|
        #![trigger counts.contains_key(k)]
        #![trigger times_requested(history, k)]
        (counts.contains_key(k) <==> times_requested(history, k) > 0) && (counts.contains_key(k)
            ==> counts[k] == times_requested(history, k))
}

/// Before any reserve is counted, the empty counts match the empty history.
pub proof fn lemma_empty_counts_match_empty_history()
    ensures
        counts_match_history(Map::<Seq<char>, u32>::empty(), Seq::<Seq<char>>::empty()),
{
}

/// Counting a route keeps the counts equal to the number of reserves seen
/// for each route: if they matched a history before `increment(id)`, they
/// match that history followed by `id` after it.
pub proof fn lemma_increment_follows_history(
    counts: Map<Seq<char>, u32>,
    history: Seq<Seq<char>>,
    id: Seq<char>,
)
    requires
        counts_match_history(counts, history),
        counts.contains_key(id) ==> counts[id] < u32::MAX,
    ensures
        counts_match_history(
            counts.insert(id, RouteCounter::incremented(counts, id)),
            history.push(id),
        ),
{
    let after = counts.insert(id, RouteCounter::incremented(counts, id));
    let longer = history.push(id);
    assert(longer.drop_last() =~= history);
    assert forall|k: Seq<char>|
        (after.contains_key(k) <==> times_requested(longer, k) > 0) && (after.contains_key(k)
            ==> after[k] == times_requested(longer, k)) by {
        assert(times_requested(longer, k) == times_requested(history, k) + if k == id {
            1nat
        } else {
            0nat
        });
        assert(counts.contains_key(k) <==> times_requested(history, k) > 0);
    }
}

} // verus!

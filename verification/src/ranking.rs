use vstd::prelude::*;

verus! {

/// What a route entry holds: the route's identifier and how many reserves asked for it.
pub open spec fn entry_view(e: (String, u32)) -> (Seq<char>, u32) {
    (e.0@, e.1)
}

/// The views of a list of route entries.
pub open spec fn entry_views(v: Seq<(String, u32)>) -> Seq<(Seq<char>, u32)> {
    v.map_values(|e: (String, u32)| entry_view(e))
}

/// Entries in order of requests, most requested first.
pub open spec fn most_requested_first(s: Seq<(Seq<char>, u32)>) -> bool {
    forall|i: int, j: int| 0 <= i < j < s.len() ==> s[i].1 >= s[j].1
}

/// Inserts an entry after every leading entry requested at least as often,
/// so that among entries with equal counts the earlier ones stay first.
pub open spec fn insert_ranked(ranked: Seq<(Seq<char>, u32)>, e: (Seq<char>, u32)) -> Seq<
    (Seq<char>, u32),
>
    decreases ranked.len(),
{
    if ranked.len() == 0 {
        seq![e]
    } else if ranked[0].1 < e.1 {
        seq![e] + ranked
    } else {
        seq![ranked[0]] + insert_ranked(ranked.drop_first(), e)
    }
}

/// The entries ordered from the most requested to the least requested, those
/// with equal counts in the order in which they came (a stable sort).
pub open spec fn stable_rank(entries: Seq<(Seq<char>, u32)>) -> Seq<(Seq<char>, u32)>
    decreases entries.len(),
{
    if entries.len() == 0 {
        Seq::<(Seq<char>, u32)>::empty()
    } else {
        insert_ranked(stable_rank(entries.drop_last()), entries.last())
    }
}

proof fn lemma_insert_before_first_smaller(
    ranked: Seq<(Seq<char>, u32)>,
    e: (Seq<char>, u32),
    p: int,
)
    requires
        0 <= p <= ranked.len(),
        forall|k: int| 0 <= k < p ==> ranked[k].1 >= e.1,
        p < ranked.len() ==> ranked[p].1 < e.1,
    ensures
        ranked.insert(p, e) == insert_ranked(ranked, e),
    decreases ranked.len(),
{
    if ranked.len() == 0 {
        assert(ranked.insert(p, e) =~= seq![e]);
    } else if p == 0 {
        assert(ranked.insert(p, e) =~= seq![e] + ranked);
    } else {
        let rest = ranked.drop_first();
        assert forall|k: int| 0 <= k < p - 1 implies rest[k].1 >= e.1 by {
            assert(rest[k] == ranked[k + 1]);
        }
        lemma_insert_before_first_smaller(rest, e, p - 1);
        assert(ranked.insert(p, e) =~= seq![ranked[0]] + rest.insert(p - 1, e));
    }
}

/// Orders the route entries from the most requested to the least requested,
/// keeping every entry.
pub fn rank_routes(routes: &Vec<(String, u32)>) -> (ranked: Vec<(String, u32)>)
    ensures
        entry_views(ranked@) == stable_rank(entry_views(routes@)),
        entry_views(ranked@).to_multiset() == entry_views(routes@).to_multiset(),
        most_requested_first(entry_views(ranked@)),
        ranked.len() == routes.len(),
{
    let mut ranked: Vec<(String, u32)> = Vec::new();
    let n = routes.len();
    let mut i: usize = 0;
    assert(entry_views(routes@.take(0)) =~= Seq::<(Seq<char>, u32)>::empty());
    assert(entry_views(ranked@) =~= Seq::<(Seq<char>, u32)>::empty());
    while i < n
        invariant
            n == routes.len(),
            i <= n,
            entry_views(ranked@).to_multiset() == entry_views(routes@.take(i as int)).to_multiset(),
            most_requested_first(entry_views(ranked@)),
            ranked.len() == i,
            entry_views(ranked@) == stable_rank(entry_views(routes@.take(i as int))),
        decreases n - i,
    {
        let requests = routes[i].1;
        let entry = (routes[i].0.clone(), requests);
        let mut p: usize = 0;
        while p < ranked.len() && ranked[p].1 >= requests
            invariant
                p <= ranked.len(),
                forall|k: int| 0 <= k < p ==> ranked@[k].1 >= requests,
            decreases ranked.len() - p,
        {
            p = p + 1;
        }
        let ghost before = ranked@;
        ranked.insert(p, entry);
        proof {
            let ev = entry_view(entry);
            assert(ev == entry_view(routes@[i as int]));
            assert(entry_views(ranked@) =~= entry_views(before).insert(p as int, ev));
            assert(entry_views(routes@.take(i + 1)) =~= entry_views(routes@.take(i as int)).push(ev));
            let s = entry_views(ranked@);
            let b = entry_views(before);
            assert forall|k: int| 0 <= k < p implies b[k].1 >= ev.1 by {
                assert(b[k] == entry_view(before[k]));
            }
            lemma_insert_before_first_smaller(b, ev, p as int);
            assert(entry_views(routes@.take(i + 1)).drop_last() =~= entry_views(routes@.take(i as int)));
            vstd::seq_lib::to_multiset_insert(b, p as int, ev);
            vstd::seq_lib::to_multiset_build(entry_views(routes@.take(i as int)), ev);
            assert forall|x: int, y: int| 0 <= x < y < s.len() implies s[x].1 >= s[y].1 by {
                if p < b.len() {
                    assert(b[p as int].1 < requests);
                }
                if y < p {
                    assert(s[x] == b[x] && s[y] == b[y]);
                } else if y == p {
                    assert(s[x] == b[x]);
                } else if x == p {
                    assert(s[y] == b[y - 1]);
                    assert(b[p as int].1 >= b[y - 1].1);
                } else if x < p {
                    assert(s[x] == b[x] && s[y] == b[y - 1]);
                } else {
                    assert(s[x] == b[x - 1] && s[y] == b[y - 1]);
                }
            }
        }
        i = i + 1;
    }
    assert(routes@.take(n as int) =~= routes@);
    ranked
}

/// The routes that most reserves asked for, at most `limit` of them, the most
/// requested first: the first entries of the stable ranking. Every entry
/// left out was requested no more often than any entry kept.
pub fn most_requested_routes(routes: &Vec<(String, u32)>, limit: usize) -> (top: Vec<(String, u32)>)
    ensures
        top.len() == if routes.len() < limit { routes.len() } else { limit },
        entry_views(top@) == stable_rank(entry_views(routes@)).take(top.len() as int),
        most_requested_first(entry_views(top@)),
        entry_views(top@).to_multiset().subset_of(entry_views(routes@).to_multiset()),
        forall|e: (Seq<char>, u32)|
            entry_views(top@).to_multiset().count(e) < entry_views(routes@).to_multiset().count(e)
                ==> top.len() == limit && forall|i: int| 0 <= i < top.len() ==> e.1 <= #[trigger] top@[i].1,
{
    let mut top = rank_routes(routes);
    let ghost ranked = entry_views(top@);
    top.truncate(limit);
    proof {
        let k = top.len() as int;
        let kept = ranked.take(k);
        let rest = ranked.skip(k);
        assert(entry_views(top@) =~= kept);
        assert(ranked =~= kept + rest);
        vstd::seq_lib::lemma_multiset_commutative(kept, rest);
        assert forall|e: (Seq<char>, u32)|
            kept.to_multiset().count(e) < ranked.to_multiset().count(e) implies top.len() == limit
            && forall|i: int| 0 <= i < top.len() ==> e.1 <= #[trigger] top@[i].1 by {
            assert(rest.to_multiset().count(e) > 0);
            vstd::seq_lib::to_multiset_contains(rest, e);
            let j = choose|j: int| 0 <= j < rest.len() && rest[j] == e;
            assert(ranked[k + j] == e);
            assert forall|i: int| 0 <= i < top.len() implies e.1 <= #[trigger] top@[i].1 by {
                assert(kept[i] == ranked[i]);
                assert(entry_views(top@)[i] == kept[i]);
            }
        }
    }
    top
}

} // verus!

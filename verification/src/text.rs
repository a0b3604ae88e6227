use vstd::prelude::*;

verus! {

/// The character that separates the fields of a reserve line.
pub const FIELD_SEPARATOR: char = ' ';

/// The identifier of a route: its origin, an underscore, and its destination.
pub open spec fn route_id_of(origin: Seq<char>, destination: Seq<char>) -> Seq<char> {
    origin + seq!['_'] + destination
}

/// A route's identifier is the whole origin, one underscore, then the whole
/// destination: its length is the sum of theirs plus one, it starts with the
/// origin, holds '_' right after it, and ends with the destination.
pub proof fn lemma_route_id_parts(origin: Seq<char>, destination: Seq<char>)
    ensures
        route_id_of(origin, destination).len() == origin.len() + 1 + destination.len(),
        route_id_of(origin, destination).take(origin.len() as int) == origin,
        route_id_of(origin, destination)[origin.len() as int] == '_',
        route_id_of(origin, destination).skip(origin.len() as int + 1) == destination,
{
    let id = route_id_of(origin, destination);
    assert(id.take(origin.len() as int) =~= origin);
    assert(id.skip(origin.len() as int + 1) =~= destination);
}

/// Builds the identifier under which the statistics count a route.
pub fn route_id(origin: &str, destination: &str) -> (id: String)
    ensures
        id@ == route_id_of(origin@, destination@),
{
    let id = String::from_str(origin);
    let id = id.concat("_");
    proof {
        reveal_strlit("_");
    }
    id.concat(destination)
}


/// The fields of a line, as `str::split` with a single-character separator
/// gives them: the text between consecutive separators, including empty
/// fields where two separators meet or the line starts or ends with one.
pub open spec fn split_fields(s: Seq<char>, sep: char) -> Seq<Seq<char>>
    decreases s.len(),
{
    if s.len() == 0 {
        seq![Seq::<char>::empty()]
    } else {
        let fields = split_fields(s.drop_last(), sep);
        if s.last() == sep {
            fields.push(Seq::<char>::empty())
        } else {
            fields.update(fields.len() - 1, fields.last().push(s.last()))
        }
    }
}

/// The fields put back together, one separator between each two of them.
pub open spec fn join_fields(fields: Seq<Seq<char>>, sep: char) -> Seq<char>
    decreases fields.len(),
{
    if fields.len() == 0 {
        Seq::<char>::empty()
    } else if fields.len() == 1 {
        fields[0]
    } else {
        join_fields(fields.drop_last(), sep) + seq![sep] + fields.last()
    }
}

/// How many times `c` occurs in `s`.
pub open spec fn occurrences(s: Seq<char>, c: char) -> nat
    decreases s.len(),
{
    if s.len() == 0 {
        0
    } else {
        occurrences(s.drop_last(), c) + if s.last() == c { 1nat } else { 0nat }
    }
}

/// The views of a vector of strings.
pub open spec fn string_views(v: Seq<String>) -> Seq<Seq<char>> {
    v.map_values(|f: String| f@)
}

proof fn lemma_join_extend_last(fields: Seq<Seq<char>>, sep: char, c: char)
    requires
        fields.len() >= 1,
    ensures
        join_fields(fields.update(fields.len() - 1, fields.last().push(c)), sep)
            == join_fields(fields, sep).push(c),
{
    let updated = fields.update(fields.len() - 1, fields.last().push(c));
    if fields.len() == 1 {
        assert(updated.len() == 1);
    } else {
        assert(updated.drop_last() =~= fields.drop_last());
        assert(join_fields(updated, sep) =~= join_fields(fields, sep).push(c));
    }
}

/// Splitting a line and joining its fields again gives back the line; no
/// field holds the separator; and there is one field more than there are
/// separators in the line.
pub proof fn lemma_split_join(s: Seq<char>, sep: char)
    ensures
        join_fields(split_fields(s, sep), sep) == s,
        forall|i: int|
            0 <= i < split_fields(s, sep).len() ==> !(#[trigger] split_fields(s, sep)[i]).contains(sep),
        split_fields(s, sep).len() == occurrences(s, sep) + 1,
    decreases s.len(),
{
    if s.len() == 0 {
        assert(join_fields(split_fields(s, sep), sep) =~= s);
    } else {
        let prev = s.drop_last();
        lemma_split_join(prev, sep);
        let fields = split_fields(prev, sep);
        if s.last() == sep {
            let now = fields.push(Seq::<char>::empty());
            assert(now.drop_last() =~= fields);
            assert(join_fields(now, sep) =~= s);
            assert forall|i: int| 0 <= i < now.len() implies !(#[trigger] now[i]).contains(sep) by {
                if i < fields.len() {
                    assert(now[i] == fields[i]);
                }
            }
        } else {
            lemma_join_extend_last(fields, sep, s.last());
            let now = fields.update(fields.len() - 1, fields.last().push(s.last()));
            assert(join_fields(now, sep) =~= s);
            assert forall|i: int| 0 <= i < now.len() implies !(#[trigger] now[i]).contains(sep) by {
                if i == fields.len() - 1 {
                    let f = fields.last();
                    assert(!f.contains(sep));
                    if now[i].contains(sep) {
                        let k = choose|k: int| 0 <= k < now[i].len() && now[i][k] == sep;
                        if k < f.len() {
                            assert(f[k] == sep);
                        }
                    }
                } else {
                    assert(now[i] == fields[i]);
                }
            }
        }
    }
}

/// Splits a line at every occurrence of `sep`, as `line.split(sep)` does.
pub fn split_line(line: &str, sep: char) -> (fields: Vec<String>)
    ensures
        string_views(fields@) == split_fields(line@, sep),
{
    let n = line.unicode_len();
    let mut fields: Vec<String> = Vec::new();
    let mut start: usize = 0;
    let mut i: usize = 0;
    assert(line@.take(0) =~= Seq::<char>::empty());
    assert(line@.subrange(0, 0) =~= Seq::<char>::empty());
    assert(string_views(fields@).push(line@.subrange(0, 0)) =~= seq![Seq::<char>::empty()]);
    while i < n
        invariant
            n == line@.len(),
            start <= i <= n,
            split_fields(line@.take(i as int), sep) == string_views(fields@).push(
                line@.subrange(start as int, i as int),
            ),
        decreases n - i,
    {
        let c = line.get_char(i);
        let ghost before = line@.take(i as int);
        let ghost after = line@.take(i + 1);
        let ghost prev = fields@;
        assert(after.drop_last() =~= before);
        assert(after.last() == c);
        if c == sep {
            let piece = line.substring_char(start, i);
            fields.push(String::from_str(piece));
            proof {
                assert(string_views(fields@) =~= string_views(prev).push(piece@));
                assert(line@.subrange(i + 1, i + 1) =~= Seq::<char>::empty());
            }
            start = i + 1;
        } else {
            proof {
                let old_view = string_views(prev).push(line@.subrange(start as int, i as int));
                assert(old_view.last() == line@.subrange(start as int, i as int));
                assert(line@.subrange(start as int, i as int).push(c)
                    =~= line@.subrange(start as int, i + 1));
                assert(old_view.update(old_view.len() - 1, old_view.last().push(c))
                    =~= string_views(fields@).push(line@.subrange(start as int, i + 1)));
            }
        }
        i = i + 1;
    }
    assert(line@.take(n as int) =~= line@);
    let ghost prev = fields@;
    let piece = line.substring_char(start, n);
    fields.push(String::from_str(piece));
    assert(string_views(fields@) =~= string_views(prev).push(piece@));
    fields
}

} // verus!

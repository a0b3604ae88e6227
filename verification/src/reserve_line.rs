use vstd::prelude::*;
use crate::text::{split_line, split_fields, string_views, FIELD_SEPARATOR};

verus! {

/// What the hotel field of a reserve line holds when the reserve is a flight alone.
pub const NO_HOTEL: &'static str = "-";

/// The fields of a reserve line: origin, destination, airline and hotel, then
/// anything after them, which is ignored.
pub open spec fn line_fields(line: Seq<char>) -> Seq<Seq<char>> {
    split_fields(line, FIELD_SEPARATOR)
}

/// A line holds a reserve when it has at least its four fields.
pub open spec fn is_reserve_line(line: Seq<char>) -> bool {
    line_fields(line).len() >= 4
}

/// The hotel field of a flight without a hotel.
pub open spec fn no_hotel() -> Seq<char> {
    seq!['-']
}

/// The four fields of a reserve line: origin, destination, airline and hotel.
pub fn reserve_fields(line: &str) -> (fields: (String, String, String, String))
    requires
        is_reserve_line(line@),
    ensures
        fields.0@ == line_fields(line@)[0],
        fields.1@ == line_fields(line@)[1],
        fields.2@ == line_fields(line@)[2],
        fields.3@ == line_fields(line@)[3],
{
    let parts = split_line(line, FIELD_SEPARATOR);
    assert(string_views(parts@)[0] == parts@[0]@);
    assert(string_views(parts@)[1] == parts@[1]@);
    assert(string_views(parts@)[2] == parts@[2]@);
    assert(string_views(parts@)[3] == parts@[3]@);
    (parts[0].clone(), parts[1].clone(), parts[2].clone(), parts[3].clone())
}

/// Whether a reserve asks for a hotel, that is, whether its hotel field is
/// anything but the mark of a flight alone.
pub fn wants_hotel(hotel: &str) -> (wanted: bool)
    ensures
        wanted == (hotel@ != no_hotel()),
{
    proof {
        reveal_strlit("-");
    }
    if hotel.unicode_len() == 1 {
        let c = hotel.get_char(0);
        if c == '-' {
            assert(hotel@ =~= no_hotel());
            false
        } else {
            true
        }
    } else {
        true
    }
}

} // verus!

use vstd::prelude::*;
use crate::reserve_line::{reserve_fields, is_reserve_line, line_fields};
use super::reserve::{Reserve, ReserveView};

verus! {

/// A reserve line as received.
pub struct ReserveString {
    line: String,
}

impl View for ReserveString {
    type V = Seq<char>;

    closed spec fn view(&self) -> Seq<char> {
        self.line@
    }
}

impl ReserveString {
    pub fn new(line: String) -> (reserve_string: ReserveString)
        ensures
            reserve_string@ == line@,
    {
        ReserveString { line }
    }

    /// The line received.
    pub fn line(&self) -> (line: &String)
        ensures
            line@ == self@,
    {
        &self.line
    }
}

/// The reserve that a line asks for: its first four fields are origin,
/// destination, airline and hotel.
pub fn build_reserve(reserve_line: String) -> (reserve: Reserve)
    requires
        is_reserve_line(reserve_line@),
    ensures
        reserve@ == (ReserveView {
            origin: line_fields(reserve_line@)[0],
            destination: line_fields(reserve_line@)[1],
            airline: line_fields(reserve_line@)[2],
            hotel: line_fields(reserve_line@)[3],
        }),
{
    let (origin, destination, airline, hotel) = reserve_fields(reserve_line.as_str());
    Reserve::new(origin, destination, airline, hotel)
}

} // verus!

use reservas::text::{route_id, split_line};
use reservas::reserve_line::{reserve_fields, wants_hotel, NO_HOTEL};

#[test]
fn route_id_joins_origin_and_destination() {
    assert_eq!(route_id("EZE", "MIA"), "EZE_MIA".to_string());
    assert_eq!(route_id("", ""), "_".to_string());
}

#[test]
fn split_line_gives_the_fields_between_spaces() {
    assert_eq!(split_line("EZE MIA LAN -", ' '), vec!["EZE", "MIA", "LAN", "-"]);
}

#[test]
fn split_line_keeps_empty_fields() {
    assert_eq!(split_line("", ' '), vec![""]);
    assert_eq!(split_line(" a", ' '), vec!["", "a"]);
    assert_eq!(split_line("a  b ", ' '), vec!["a", "", "b", ""]);
}

#[test]
fn split_line_matches_str_split() {
    for line in ["a b c", "  ", "áé ü x", "no-spaces", "x y z w v"] {
        let expected: Vec<String> = line.split(' ').map(|s| s.to_string()).collect();
        assert_eq!(split_line(line, ' '), expected);
    }
}

#[test]
fn split_then_join_gives_back_the_line() {
    let line = "Buenos_Aires  Madrid Iberia Hotel_Sol extra";
    let fields = split_line(line, ' ');
    assert_eq!(fields.join(" "), line);
    assert_eq!(fields.len(), line.matches(' ').count() + 1);
    assert!(fields.iter().all(|f| !f.contains(' ')));
}

#[test]
fn reserve_fields_takes_the_first_four() {
    let (o, d, a, h) = reserve_fields("EZE MIA LAN Hilton trailing words");
    assert_eq!((o.as_str(), d.as_str(), a.as_str(), h.as_str()), ("EZE", "MIA", "LAN", "Hilton"));
}

#[test]
fn wants_hotel_is_false_only_for_the_dash() {
    assert!(!wants_hotel(NO_HOTEL));
    assert!(!wants_hotel("-"));
    assert!(wants_hotel("--"));
    assert!(wants_hotel("Hilton"));
    assert!(wants_hotel(""));
}

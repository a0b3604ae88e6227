use reservas::actors::flight::Flight as RoutedFlight;
use reservas::actors::package::Package as RoutedPackage;
use reservas::actors::receiver_actor::{build_reserve, ReserveString};
use reservas::actors::reserve::Reserve;
use reservas::actors::reserve_actor::{after_airline_reply as retry_at_once, package_flight, plan_reserve, ReservePlan};
use reservas::actors::route::Route as ActorRoute;
use reservas::airline_semaphores::airlines_semaphore::AirlinesSemaphore;
use reservas::airline_semaphores::flight::Flight;
use reservas::airline_semaphores::package::Package;
use reservas::airline_semaphores::route::Route;
use reservas::airline_semaphores::{after_airline_reply, parse_reserve, Reservation, KNOWN_AIRLINES};
use reservas::reserve_controller;
use reservas::web_service::AirlineStep;

fn s(x: &str) -> String {
    x.to_string()
}

#[test]
fn flight_getters_return_what_new_was_given() {
    let f = Flight::new(s("EZE"), s("MIA"), s("LAN"));
    assert_eq!((f.get_origin(), f.get_destination(), f.get_airline()), (s("EZE"), s("MIA"), s("LAN")));
}

#[test]
fn package_getters_return_what_new_was_given() {
    let p = Package::new(s("EZE"), s("MIA"), s("LAN"), s("Hilton"));
    assert_eq!(p.get_origin(), "EZE");
    assert_eq!(p.get_destination(), "MIA");
    assert_eq!(p.get_airline(), "LAN");
    assert_eq!(p.get_hotel(), "Hilton");
}

#[test]
fn route_ids_of_each_version() {
    assert_eq!(Route::new(s("COR"), s("BRC")).get_id(), "COR_BRC");
    assert_eq!(reserve_controller::route::Route::new(s("a b"), s("")).get_id(), "a b_");
}

#[test]
fn routed_flight_and_package_keep_their_route() {
    let f = RoutedFlight::new(ActorRoute::new(s("EZE"), s("MIA")), s("LAN"));
    assert_eq!(f.get_route().get_origin(), "EZE");
    assert_eq!(f.get_route().get_destination(), "MIA");
    assert_eq!(f.get_airline(), "LAN");
    let p = RoutedPackage::new(ActorRoute::new(s("EZE"), s("MIA")), s("LAN"), s("Hilton"));
    let pf = package_flight(&p);
    assert_eq!(pf.get_route().get_destination(), "MIA");
    assert_eq!(pf.get_airline(), "LAN");
    assert_eq!(p.get_hotel(), "Hilton");
}

#[test]
fn route_and_reserve_clones_keep_their_fields() {
    let r = ActorRoute::new(s("A"), s("B")).clone();
    assert_eq!((r.get_origin(), r.get_destination()), (s("A"), s("B")));
    let reserve = Reserve::new(s("A"), s("B"), s("C"), s("D")).clone();
    assert_eq!(
        (reserve.get_origin(), reserve.get_destination(), reserve.get_airline(), reserve.get_hotel()),
        (s("A"), s("B"), s("C"), s("D"))
    );
}

#[test]
fn parse_reserve_reads_a_flight() {
    let (reservation, route) = parse_reserve("EZE MIA LAN -");
    assert_eq!(route.get_id(), "EZE_MIA");
    match reservation {
        Reservation::Flight(f) => {
            assert_eq!((f.get_origin(), f.get_destination(), f.get_airline()), (s("EZE"), s("MIA"), s("LAN")));
        }
        Reservation::Package(_) => panic!("a dash means no hotel"),
    }
}

#[test]
fn parse_reserve_reads_a_package() {
    let (reservation, _) = parse_reserve("EZE MIA Aerolineas_Argentinas Sheraton");
    match reservation {
        Reservation::Package(p) => assert_eq!(p.get_hotel(), "Sheraton"),
        Reservation::Flight(_) => panic!("a hotel was named"),
    }
}

#[test]
fn first_version_parses_lines_alike() {
    let (reservation, route) = reserve_controller::parse_reserve("A B C -");
    assert!(matches!(reservation, reserve_controller::Reservation::Flight(_)));
    assert_eq!(route.get_id(), "A_B");
    let (reservation, _) = reserve_controller::parse_reserve("A B C H");
    assert!(matches!(reservation, reserve_controller::Reservation::Package(_)));
}

#[test]
fn build_reserve_and_plan() {
    let reserve = build_reserve(s("EZE MIA LAN -"));
    assert_eq!(reserve.get_airline(), "LAN");
    let (plan, route) = plan_reserve(&reserve);
    assert_eq!((route.get_origin(), route.get_destination()), (s("EZE"), s("MIA")));
    assert!(matches!(plan, ReservePlan::Flight(_)));
    let (plan, _) = plan_reserve(&build_reserve(s("EZE MIA LAN Hilton")));
    match plan {
        ReservePlan::Package(p) => assert_eq!(p.get_hotel(), "Hilton"),
        ReservePlan::Flight(_) => panic!("a hotel was named"),
    }
}

#[test]
fn reserve_string_keeps_its_line() {
    assert_eq!(ReserveString::new(s("A B C D")).line(), "A B C D");
}

#[test]
fn airlines_semaphore_knows_what_was_inserted() {
    let mut airlines = AirlinesSemaphore::new();
    assert!(airlines.get_airline_semaphore(s("LAN")).is_none());
    for a in KNOWN_AIRLINES {
        airlines.insert_airline_semaphore(a.to_string());
    }
    assert!(airlines.get_airline_semaphore(s("LAN")).is_some());
    assert!(airlines.get_airline_semaphore(s("Aerolineas_Argentinas")).is_some());
    assert!(airlines.get_airline_semaphore(s("Iberia")).is_none());
}

#[test]
fn refused_requests_are_retried() {
    assert!(matches!(after_airline_reply(true), AirlineStep::Approved));
    assert!(matches!(after_airline_reply(false), AirlineStep::RetryAfter(5)));
    assert!(matches!(reserve_controller::after_airline_reply(false), AirlineStep::RetryAfter(5)));
    assert!(matches!(retry_at_once(false), AirlineStep::RetryAfter(0)));
    assert!(matches!(retry_at_once(true), AirlineStep::Approved));
}

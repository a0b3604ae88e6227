use reservas::actors;
use reservas::reserve_controller;

fn count_of(routes: &[(String, u32)], id: &str) -> Option<u32> {
    routes.iter().find(|e| e.0 == id).map(|e| e.1)
}

#[test]
fn increment_route_counter_counts_each_route() {
    let mut stats = reserve_controller::stats::Stats::new();
    let r = |o: &str, d: &str| reserve_controller::route::Route::new(o.to_string(), d.to_string());
    stats.increment_route_counter(r("EZE", "MIA"));
    stats.increment_route_counter(r("EZE", "MIA"));
    stats.increment_route_counter(r("COR", "EZE"));
    stats.increment_route_counter(r("EZE", "MIA"));
    let routes = stats.get_routes();
    assert_eq!(routes.len(), 2);
    assert_eq!(count_of(&routes, "EZE_MIA"), Some(3));
    assert_eq!(count_of(&routes, "COR_EZE"), Some(1));
    assert_eq!(count_of(&routes, "MIA_EZE"), None);
}

#[test]
fn new_stats_have_no_routes() {
    assert!(reserve_controller::stats::Stats::new().get_routes().is_empty());
    assert!(actors::stats::Stats::new().get_routes().is_empty());
}

#[test]
fn average_processing_time_rounds_down() {
    let mut stats = reserve_controller::stats::Stats::new();
    stats.add_reserve_processing_time(3);
    stats.add_reserve_processing_time(4);
    assert_eq!(stats.get_avg_reserve_processing_time(), 3);
    stats.add_reserve_processing_time(11);
    assert_eq!(stats.get_avg_reserve_processing_time(), 6);
}

#[test]
fn average_of_no_times_is_zero_for_the_actor_statistics() {
    let mut stats = actors::stats::Stats::default();
    assert_eq!(stats.get_avg_reserve_processing_time(), 0);
    stats.add_reserve_processing_time(9);
    stats.add_reserve_processing_time(0);
    assert_eq!(stats.get_avg_reserve_processing_time(), 4);
}

#[test]
fn actor_statistics_count_routes_by_identifier() {
    let mut stats = actors::stats::Stats::new();
    let r = |o: &str, d: &str| actors::route::Route::new(o.to_string(), d.to_string());
    stats.increment_route_counter(r("A", "B"));
    stats.increment_route_counter(r("A", "B"));
    stats.increment_route_counter(r("B", "A"));
    let routes = stats.get_routes();
    assert_eq!(count_of(&routes, "A_B"), Some(2));
    assert_eq!(count_of(&routes, "B_A"), Some(1));
}

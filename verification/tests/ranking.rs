use reservas::ranking::{most_requested_routes, rank_routes};

fn entries(list: &[(&str, u32)]) -> Vec<(String, u32)> {
    list.iter().map(|(k, v)| (k.to_string(), *v)).collect()
}

#[test]
fn rank_routes_orders_by_requests_descending() {
    let routes = entries(&[("A_B", 2), ("C_D", 7), ("E_F", 1), ("G_H", 7), ("I_J", 3)]);
    let ranked = rank_routes(&routes);
    let counts: Vec<u32> = ranked.iter().map(|e| e.1).collect();
    assert_eq!(counts, vec![7, 7, 3, 2, 1]);
    assert_eq!(ranked[0].0, "C_D");
    assert_eq!(ranked[1].0, "G_H");
    let mut a = ranked.clone();
    let mut b = routes.clone();
    a.sort();
    b.sort();
    assert_eq!(a, b);
}

#[test]
fn rank_routes_of_nothing_is_nothing() {
    assert!(rank_routes(&Vec::new()).is_empty());
}

#[test]
fn most_requested_routes_keeps_the_top_ten() {
    let mut routes = Vec::new();
    for i in 0..15u32 {
        routes.push((format!("R{}_X", i), i));
    }
    let top = most_requested_routes(&routes, 10);
    assert_eq!(top.len(), 10);
    assert_eq!(top[0], ("R14_X".to_string(), 14));
    assert_eq!(top[9], ("R5_X".to_string(), 5));
    assert!(top.windows(2).all(|w| w[0].1 >= w[1].1));
}

#[test]
fn most_requested_routes_with_fewer_routes_than_the_limit() {
    let routes = entries(&[("A_B", 1), ("C_D", 4)]);
    let top = most_requested_routes(&routes, 10);
    assert_eq!(top, entries(&[("C_D", 4), ("A_B", 1)]));
    assert!(most_requested_routes(&routes, 0).is_empty());
}

#[test]
fn ties_keep_the_order_in_which_routes_came() {
    let routes = entries(&[("A_B", 1), ("C_D", 1), ("E_F", 2), ("G_H", 1)]);
    let top = most_requested_routes(&routes, 3);
    assert_eq!(top, entries(&[("E_F", 2), ("A_B", 1), ("C_D", 1)]));
}

use reservas::web_service::{approves, draw_airline_reply, draw_hotel_delay, MAX_DELAY_SECONDS, RESPONSE_DRAWS};

#[test]
fn approval_threshold() {
    for r in 0..=5 {
        assert!(approves(r));
    }
    for r in 6..10 {
        assert!(!approves(r));
    }
}

#[test]
fn drawn_replies_stay_in_range() {
    let mut approved = 0;
    for _ in 0..200 {
        let reply = draw_airline_reply();
        assert!(reply.delay_seconds < MAX_DELAY_SECONDS);
        assert!(reply.response < RESPONSE_DRAWS);
        assert_eq!(reply.approved(), reply.response <= 5);
        if reply.approved() {
            approved += 1;
        }
        assert!(draw_hotel_delay() < MAX_DELAY_SECONDS);
    }
    assert!(approved > 0 && approved < 200);
}

use echo_chamber::RateLimiter;

#[test]
fn rate_limiter_lets_first_and_every_nth_through() {
    let mut r = RateLimiter::new(3);
    let got: Vec<bool> = (0..7).map(|_| r.record()).collect();
    assert_eq!(got, vec![true, false, false, true, false, false, true]);
    assert_eq!(r.seen(), 7);
}

#[test]
fn rate_limiter_of_one_reports_everything() {
    let mut r = RateLimiter::new(1);
    assert!(r.record());
    assert!(r.record());
    assert_eq!(r.seen(), 2);
}

use remoteplay_inviter::backoff::{RetrySec, INITIAL_DELAY_SECS, MAX_DELAY_SECS};

#[test]
fn delays_double_then_saturate() {
    let mut r = RetrySec::new();
    let got: Vec<u64> = (0..9).map(|_| r.next()).collect();
    assert_eq!(got, vec![1, 2, 4, 8, 16, 32, 60, 60, 60]);
}

#[test]
fn delays_never_shrink_and_stay_bounded() {
    let mut r = RetrySec::new();
    let mut prev = 0;
    for _ in 0..1000 {
        let d = r.next();
        assert!(d >= prev);
        assert!(d <= MAX_DELAY_SECS);
        assert!(d >= INITIAL_DELAY_SECS);
        prev = d;
    }
}

#[test]
fn reset_restarts_from_initial_delay() {
    let mut r = RetrySec::new();
    for _ in 0..5 {
        r.next();
    }
    r.reset();
    assert_eq!(r.next(), INITIAL_DELAY_SECS);
    assert_eq!(r.next(), 2);
}

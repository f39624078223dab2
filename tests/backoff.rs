use hub_link::backoff::{backoff_base_secs, backoff_delay, delay_with_draw, Reconnect};

#[test]
fn backoff_delay_increases() {
    let d0 = backoff_delay(0);
    let d1 = backoff_delay(1);
    let d3 = backoff_delay(3);
    assert!(d0 <= 1500);
    assert!(d1 <= 3000);
    assert!(d3 <= 12000);
}

#[test]
fn backoff_delay_caps() {
    let d10 = backoff_delay(10);
    assert!(d10 <= 90000);
}

#[test]
fn backoff_ranges() {
    for _ in 0..50 {
        let d0 = backoff_delay(0);
        assert!((1000..1500).contains(&d0));
        let d3 = backoff_delay(3);
        assert!((8000..12000).contains(&d3));
        let d10 = backoff_delay(10);
        assert!((60000..90000).contains(&d10));
    }
}

#[test]
fn base_doubles_then_caps() {
    let bases: Vec<u64> = (0..8).map(backoff_base_secs).collect();
    assert_eq!(bases, vec![1, 2, 4, 8, 16, 32, 60, 60]);
    assert_eq!(backoff_base_secs(u32::MAX), 60);
}

#[test]
fn jitter_from_draw() {
    assert_eq!(delay_with_draw(0, 0), 1000);
    assert_eq!(delay_with_draw(0, 499), 1499);
    assert_eq!(delay_with_draw(0, 500), 1000);
    assert_eq!(delay_with_draw(3, 3999), 11999);
    assert_eq!(delay_with_draw(10, 7), 60007);
}

#[test]
fn attempts_reset_and_saturate() {
    let mut r = Reconnect::new();
    assert_eq!(r.delay_after_with_draw(false, 0), 1000);
    assert_eq!(r.attempt, 1);
    for _ in 0..10 {
        r.delay_after_with_draw(false, 0);
    }
    assert_eq!(r.attempt, 6);
    assert_eq!(r.delay_after_with_draw(false, 0), 60000);
    assert_eq!(r.delay_after_with_draw(true, 0), 1000);
    assert_eq!(r.attempt, 1);
    let d = r.delay_after(false);
    assert!((2000..3000).contains(&d));
    assert_eq!(r.attempt, 2);
}

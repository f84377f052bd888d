use bubbletea_rs::TimerRegistry;

#[test]
fn register_and_cancel() {
    let mut r: TimerRegistry<&str> = TimerRegistry::new();
    assert_eq!(r.register(1, "one"), None);
    assert_eq!(r.register(2, "two"), None);
    assert_eq!(r.cancel(1), Some("one"));
    // Cancelling again has no effect.
    assert_eq!(r.cancel(1), None);
    assert_eq!(r.cancel(7), None);
    assert_eq!(r.cancel(2), Some("two"));
}

#[test]
fn registering_again_hands_back_the_old_handle() {
    let mut r = TimerRegistry::new();
    assert_eq!(r.register(5, 50), None);
    assert_eq!(r.register(5, 55), Some(50));
    assert_eq!(r.cancel(5), Some(55));
}

#[test]
fn cancel_all_hands_back_every_handle_once() {
    let mut r = TimerRegistry::new();
    for id in 1..=10u64 {
        r.register(id, id * 100);
    }
    r.cancel(3);
    let mut all = r.cancel_all();
    all.sort();
    assert_eq!(all, vec![100, 200, 400, 500, 600, 700, 800, 900, 1000]);
    assert!(r.cancel_all().is_empty());
    assert_eq!(r.cancel(4), None);
}

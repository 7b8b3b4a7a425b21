use vaultquad::helper::watch::{advance_nanos, Watch};

fn wait_ms(ms: u64) {
    let start = std::time::Instant::now();
    while start.elapsed() < std::time::Duration::from_millis(ms) {}
}

#[test]
fn new_watch_is_paused_at_zero() {
    let w = Watch::new();
    assert!(w.is_paused());
    assert_eq!(w.time_nanos(), 0);
}

#[test]
fn running_watch_counts_and_pause_freezes() {
    let mut w = Watch::new();
    w.resume();
    assert!(!w.is_paused());
    wait_ms(20);
    w.pause();
    assert!(w.is_paused());
    let t = w.time_nanos();
    assert!(t >= 20_000_000);
    wait_ms(10);
    assert_eq!(w.time_nanos(), t);
    w.pause();
    assert_eq!(w.time_nanos(), t);
}

#[test]
fn seeking() {
    let mut w = Watch::new();
    w.pause_seek_to(5_000);
    assert!(w.is_paused());
    assert_eq!(w.time_nanos(), 5_000);
    w.seek_to(1_000_000_000);
    assert!(w.is_paused());
    assert_eq!(w.time_nanos(), 1_000_000_000);
    w.resume();
    assert!(w.time_nanos() >= 1_000_000_000);
    w.seek_to(7);
    assert!(w.time_nanos() >= 7);
    assert!(w.time_nanos() < 1_000_000_000);
}

#[test]
fn advancing_adds_and_saturates() {
    assert_eq!(advance_nanos(5, 7), 12);
    assert_eq!(advance_nanos(0, 0), 0);
    assert_eq!(advance_nanos(u128::MAX - 1, 5), u128::MAX);
}

#[test]
fn running_time_stays_near_the_stored_time() {
    let mut w = Watch::new();
    w.seek_to(1_000);
    w.resume();
    let t = w.time_nanos();
    assert!(t >= 1_000);
    assert!(t < 1_000 + 60_000_000_000);
}

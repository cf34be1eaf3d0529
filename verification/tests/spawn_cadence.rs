//! Spawn-cadence verification: does the spawn clock fire on a schedule?

use particula::Spawner;

#[test]
fn spawner_poll_fires_on_a_regular_grid() {
    let mut s = Spawner::new();
    let interval = 1440; // 30 ms at 48 kHz
    let mut events = Vec::new();
    for n in 0..72_000usize {
        if s.poll(n, interval) {
            events.push(n);
        }
    }
    assert!(!events.is_empty());
    assert_eq!(events[0], 0, "first poll fires immediately");
    let gaps: Vec<usize> = events.windows(2).map(|w| w[1] - w[0]).collect();
    for &g in &gaps {
        assert_eq!(g, interval, "poll must fire every interval, gap {g}");
    }
}

//! The worker pool: round-robin dispatch, boot decisions and pool sizing.

use policy_server::worker_pool::{effective_pool_size, pool_boot_succeeded, Dispatcher};

#[test]
fn round_robin_visits_every_worker_in_turn() {
    let mut d = Dispatcher::new(3);
    let free = vec![false, false, false];
    let mut counts = [0usize; 3];
    // Two whole turns of uniform load: each of the 3 workers gets 2.
    for _ in 0..6 {
        let w = d.pick(&free);
        counts[w] += 1;
    }
    assert_eq!(counts, [2, 2, 2]);
}

#[test]
fn full_inboxes_are_skipped() {
    let mut d = Dispatcher::new(3);
    // Worker 0's inbox is full: its turn passes to worker 1.
    let w = d.pick(&vec![true, false, false]);
    assert_eq!(w, 1);
    // The rotation moved past the chosen worker.
    let w = d.pick(&vec![false, false, false]);
    assert_eq!(w, 2);
}

#[test]
fn an_entirely_full_pool_blocks_where_the_turn_started() {
    let mut d = Dispatcher::new(2);
    let w = d.pick(&vec![true, true]);
    assert_eq!(w, 0);
    // Order is preserved: the next turn starts after the blocked worker.
    let w = d.pick(&vec![false, false]);
    assert_eq!(w, 1);
}

#[test]
fn single_worker_pool_always_picks_it() {
    let mut d = Dispatcher::new(1);
    assert_eq!(d.pick(&vec![false]), 0);
    assert_eq!(d.pick(&vec![true]), 0);
}

#[test]
fn pool_boot_reply_requires_every_worker() {
    assert!(pool_boot_succeeded(&vec![true, true, true]));
    assert!(!pool_boot_succeeded(&vec![true, false, true]));
    // No workers at all: nothing failed, vacuously ready.
    assert!(pool_boot_succeeded(&Vec::new()));
}

#[test]
fn pool_size_honours_the_request() {
    assert_eq!(effective_pool_size(Some(4)), 4);
    assert_eq!(effective_pool_size(Some(1)), 1);
}

#[test]
fn default_pool_size_is_positive() {
    assert!(effective_pool_size(None) >= 1);
}

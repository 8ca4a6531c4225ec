use waycore::commit::SurfaceCommitTracker;

#[test]
fn first_commit_yields_sequence_zero() {
    let mut tracker = SurfaceCommitTracker::new();
    assert_eq!(tracker.on_commit(7), 0);
}

#[test]
fn nth_commit_yields_sequence_n_minus_one() {
    let mut tracker = SurfaceCommitTracker::new();
    for n in 1u64..=5 {
        let sequence = tracker.on_commit(42);
        assert_eq!(sequence, n - 1);
    }
    assert_eq!(tracker.count_of(42), 5);
}

#[test]
fn sequences_never_decrease() {
    let mut tracker = SurfaceCommitTracker::new();
    let mut last = tracker.on_commit(3);
    for _ in 0..10 {
        let next = tracker.on_commit(3);
        assert!(next > last);
        last = next;
    }
}

#[test]
fn distinct_surfaces_do_not_perturb_each_other() {
    let mut tracker = SurfaceCommitTracker::new();
    tracker.on_commit(1);
    tracker.on_commit(1);
    tracker.on_commit(2);
    assert_eq!(tracker.count_of(1), 2);
    assert_eq!(tracker.count_of(2), 1);
    assert_eq!(tracker.on_commit(1), 2);
    assert_eq!(tracker.on_commit(2), 1);
}

#[test]
fn unseen_surface_has_count_zero() {
    let tracker = SurfaceCommitTracker::new();
    assert_eq!(tracker.count_of(99), 0);
}

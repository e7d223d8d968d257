use segment_sync::event::Event;
use segment_sync::synchronizer::Action;
use segment_sync::synchronizer::Synchronizer;

#[test]
fn full_sync_runs_concurrently_with_deletes() {
    let mut s = Synchronizer::new(false, 10, 0);
    s.handle_event(&Event::Deleted { version: 1 }, 0);
    assert_eq!(s.poll(0, false), Action::StartDelete { versions: vec![1] });
    // a sweep starts while the delete batch is executing
    s.handle_event(
        &Event::FullSync { machine: vec![2, 4], next_commit: 6 },
        0,
    );
    assert!(s.full_sync.is_some());
    assert_eq!(s.full_sync_count, 1);
    assert_eq!(s.full_sync_remaining, 6);
    // a second request while one is running is dropped
    s.handle_event(
        &Event::FullSync { machine: vec![9], next_commit: 100 },
        0,
    );
    assert_eq!(s.full_sync_remaining, 6);
    // the sweep advances: everything local that the snapshot lacks goes
    assert_eq!(s.full_sync_window(), Some((0, 6)));
    let targets = s.full_sync_advance(&vec![1, 2, 3]);
    assert_eq!(targets, vec![1, 3]);
    assert!(s.full_sync.is_none());
    assert_eq!(s.full_sync_remaining, 0);
    assert_eq!(s.full_sync_deleted_objects, 2);
    // the delete completion is not lost
    assert_eq!(s.poll(1, true), Action::Sleep);
    assert_eq!(s.dequeued_delete, 1);
}

#[test]
fn full_sync_steps_through_windows() {
    let mut s = Synchronizer::new(false, 2, 0);
    s.handle_event(
        &Event::FullSync { machine: vec![0, 3], next_commit: 5 },
        0,
    );
    assert_eq!(s.full_sync_window(), Some((0, 2)));
    assert_eq!(s.full_sync_advance(&vec![0, 1]), vec![1]);
    assert_eq!(s.full_sync_remaining, 3);
    assert_eq!(s.full_sync_window(), Some((2, 4)));
    assert_eq!(s.full_sync_advance(&vec![2, 3]), vec![2]);
    assert_eq!(s.full_sync_remaining, 1);
    assert_eq!(s.full_sync_window(), Some((4, 5)));
    assert_eq!(s.full_sync_advance(&vec![4]), vec![4]);
    assert_eq!(s.full_sync_remaining, 0);
    assert!(s.full_sync.is_none());
    assert_eq!(s.full_sync_deleted_objects, 3);
    assert_eq!(s.full_sync_count, 1);
    // a new sweep may start now
    s.handle_event(&Event::FullSync { machine: vec![], next_commit: 1 }, 9);
    assert_eq!(s.full_sync_count, 2);
}

#[test]
fn full_sync_ignores_versions_at_or_past_bound() {
    let mut s = Synchronizer::new(false, 100, 0);
    s.handle_event(&Event::FullSync { machine: vec![], next_commit: 3 }, 0);
    // 3 and 7 are not below the bound and must survive the sweep
    assert_eq!(s.full_sync_advance(&vec![0, 2, 3, 7]), vec![0, 2]);
    assert!(s.full_sync.is_none());
}

#[test]
fn empty_full_sync_completes_immediately() {
    let mut s = Synchronizer::new(false, 4, 0);
    s.handle_event(&Event::FullSync { machine: vec![], next_commit: 0 }, 0);
    assert!(s.full_sync.is_some());
    assert_eq!(s.full_sync_window(), Some((0, 0)));
    assert_eq!(s.full_sync_advance(&vec![]), Vec::<u64>::new());
    assert!(s.full_sync.is_none());
    assert_eq!(s.full_sync_remaining, 0);
    assert_eq!(s.full_sync_deleted_objects, 0);
}

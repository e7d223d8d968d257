use segment_sync::event::Event;
use segment_sync::event::RepairIdleness;
use segment_sync::event::DELETE_CONCURRENCY;
use segment_sync::item::TodoItem;
use segment_sync::synchronizer::Action;
use segment_sync::synchronizer::Synchronizer;
use segment_sync::synchronizer::Task;

fn fresh(threshold: RepairIdleness) -> Synchronizer {
    let mut s = Synchronizer::new(false, 100, 0);
    s.set_repair_idleness_threshold(threshold);
    s
}

#[test]
fn coalesced_deletion() {
    let mut s = fresh(RepairIdleness::Disabled);
    for v in 1..=20u64 {
        s.handle_event(&Event::Deleted { version: v }, 0);
    }
    let first: Vec<u64> = (1..=16u64).collect();
    let second: Vec<u64> = (17..=20u64).collect();
    assert_eq!(s.todo_delete, vec![first, second]);
    assert_eq!(s.enqueued_delete, 2);
}

#[test]
fn coalescing_respects_batch_bound() {
    let mut s = fresh(RepairIdleness::Disabled);
    for v in 1..=33u64 {
        s.handle_event(&Event::Deleted { version: v }, 0);
    }
    assert_eq!(s.todo_delete.len(), 3);
    for batch in &s.todo_delete {
        assert!(batch.len() <= DELETE_CONCURRENCY);
        assert!(!batch.is_empty());
    }
    assert_eq!(s.enqueued_delete, 3);
}

#[test]
fn repair_canceled_by_delete() {
    let mut s = fresh(RepairIdleness::Threshold(0));
    s.handle_event(
        &Event::Putted { version: 5, put_content_timeout: 10 },
        0,
    );
    s.handle_event(&Event::Deleted { version: 5 }, 0);
    // next tick, well past the start time and with idleness satisfied
    let action = s.poll(20, false);
    // the stale repair is discarded; the delete for 5 dispatches instead
    assert_eq!(action, Action::StartDelete { versions: vec![5] });
    assert_eq!(s.dequeued_repair, 1);
    assert!(s.todo_repair.is_empty());
}

#[test]
fn stale_then_live_repair_dispatch() {
    let mut s = fresh(RepairIdleness::Threshold(0));
    s.handle_event(&Event::Putted { version: 1, put_content_timeout: 0 }, 0);
    s.handle_event(&Event::Putted { version: 2, put_content_timeout: 0 }, 0);
    // cancel version 1 only; drain the delete it queued first
    s.handle_event(&Event::Deleted { version: 1 }, 0);
    let action = s.poll(5, false);
    // repair has priority: the stale head for 1 is discarded, 2 dispatches
    assert_eq!(action, Action::StartRepair { version: 2 });
    assert_eq!(s.dequeued_repair, 2);
    assert!(s.todo_repair.is_empty());
    assert_eq!(s.task, Task::Repair { version: 2 });
}

#[test]
fn delayed_repair_honors_start_time() {
    let mut s = fresh(RepairIdleness::Threshold(0));
    s.handle_event(&Event::Putted { version: 7, put_content_timeout: 3 }, 0);
    let action = s.poll(1, false);
    assert_eq!(action, Action::WaitUntil { deadline: 3 });
    assert_eq!(s.task, Task::Wait { deadline: 3 });
    assert!(s.todo_repair.len() == 1);
    // the timer fires at the start time; the repair dispatches
    let action = s.poll(3, true);
    assert_eq!(action, Action::StartRepair { version: 7 });
    assert_eq!(s.dequeued_repair, 1);
}

#[test]
fn wait_clamped_to_max_timeout() {
    let mut s = fresh(RepairIdleness::Threshold(0));
    s.handle_event(
        &Event::Putted { version: 8, put_content_timeout: 1000 },
        0,
    );
    let action = s.poll(0, false);
    assert_eq!(action, Action::WaitUntil { deadline: 60 });
}

#[test]
fn wait_is_not_preempted() {
    let mut s = fresh(RepairIdleness::Threshold(0));
    s.handle_event(&Event::Putted { version: 9, put_content_timeout: 50 }, 0);
    assert_eq!(s.poll(0, false), Action::WaitUntil { deadline: 50 });
    // a ready delete arrives; the armed timer is deliberately kept
    s.handle_event(&Event::Deleted { version: 3 }, 1);
    assert_eq!(s.poll(1, false), Action::Sleep);
    assert_eq!(s.task, Task::Wait { deadline: 50 });
    // once the timer fires the repair is due, and it has priority
    assert_eq!(s.poll(50, true), Action::StartRepair { version: 9 });
    // the delete follows after the repair completes
    assert_eq!(s.poll(51, true), Action::StartDelete { versions: vec![3] });
}

#[test]
fn idleness_gating() {
    let mut s = fresh(RepairIdleness::Threshold(5));
    s.handle_event(&Event::Deleted { version: 1 }, 0);
    // the delete runs immediately and marks the node busy
    assert_eq!(s.poll(0, false), Action::StartDelete { versions: vec![1] });
    s.handle_event(&Event::Putted { version: 2, put_content_timeout: 0 }, 0);
    // the delete completes at 1; the repair is popped but the node has not
    // been idle for 5 seconds, so it is put back
    assert_eq!(s.poll(1, true), Action::Sleep);
    assert_eq!(s.todo_repair.len(), 1);
    assert_eq!(s.dequeued_repair, 0);
    assert_eq!(s.poll(4, false), Action::Sleep);
    // after 5 seconds without activity the repair dispatches
    assert_eq!(s.poll(6, false), Action::StartRepair { version: 2 });
    assert_eq!(s.dequeued_repair, 1);
}

#[test]
fn disabled_repair_still_drains_deletes() {
    let mut s = fresh(RepairIdleness::Disabled);
    s.handle_event(&Event::Putted { version: 1, put_content_timeout: 0 }, 0);
    s.handle_event(&Event::Deleted { version: 2 }, 0);
    s.handle_event(&Event::Putted { version: 3, put_content_timeout: 0 }, 0);
    s.handle_event(&Event::Deleted { version: 4 }, 0);
    // deletes run in coalesced FIFO order; repairs never dispatch
    assert_eq!(s.poll(0, false), Action::StartDelete { versions: vec![2, 4] });
    assert_eq!(s.poll(1, true), Action::Sleep);
    assert_eq!(s.dequeued_delete, 1);
    assert_eq!(s.dequeued_repair, 0);
    // the repair queue grows unboundedly while disabled
    assert_eq!(s.todo_repair.len(), 2);
}

#[test]
fn deleted_twice_keeps_same_pending_set() {
    let mut s = fresh(RepairIdleness::Disabled);
    s.handle_event(&Event::Deleted { version: 5 }, 0);
    s.handle_event(&Event::Deleted { version: 5 }, 0);
    // the repeated version coalesces into the same batch: one batch, and
    // the set of versions pending deletion is still {5}
    assert_eq!(s.todo_delete, vec![vec![5, 5]]);
    assert_eq!(s.enqueued_delete, 1);
}

#[test]
fn busy_poll_dispatches_nothing() {
    let mut s = fresh(RepairIdleness::Disabled);
    s.handle_event(&Event::Deleted { version: 1 }, 0);
    assert_eq!(s.poll(0, false), Action::StartDelete { versions: vec![1] });
    s.handle_event(&Event::Deleted { version: 2 }, 1);
    // the delete executor is still running: nothing new is dispatched
    assert_eq!(s.poll(1, false), Action::Sleep);
    assert_eq!(s.dequeued_delete, 1);
    assert_eq!(s.todo_delete, vec![vec![2]]);
    // completion lets the next batch go
    assert_eq!(s.poll(2, true), Action::StartDelete { versions: vec![2] });
}

#[test]
fn counters_balance_queue_population() {
    let mut s = fresh(RepairIdleness::Disabled);
    for v in 1..=5u64 {
        s.handle_event(&Event::Putted { version: v, put_content_timeout: 0 }, 0);
    }
    for v in 1..=40u64 {
        s.handle_event(&Event::Deleted { version: 100 + v }, 0);
    }
    assert_eq!(
        s.enqueued_repair - s.dequeued_repair,
        s.todo_repair.len() as u64
    );
    assert_eq!(
        s.enqueued_delete - s.dequeued_delete,
        s.todo_delete.len() as u64
    );
    let _ = s.poll(0, false);
    assert_eq!(
        s.enqueued_delete - s.dequeued_delete,
        s.todo_delete.len() as u64
    );
}

#[test]
fn metadata_node_ignores_events() {
    let mut s = Synchronizer::new(true, 100, 0);
    s.set_repair_idleness_threshold(RepairIdleness::Threshold(0));
    s.handle_event(&Event::Putted { version: 1, put_content_timeout: 0 }, 0);
    s.handle_event(&Event::Deleted { version: 2 }, 0);
    s.handle_event(&Event::FullSync { machine: vec![1], next_commit: 10 }, 0);
    assert!(s.todo_repair.is_empty());
    assert!(s.todo_delete.is_empty());
    assert!(s.repair_candidates.is_empty());
    assert!(s.full_sync.is_none());
    assert_eq!(s.enqueued_repair, 0);
    assert_eq!(s.enqueued_delete, 0);
    assert_eq!(s.poll(1, false), Action::Sleep);
}

#[test]
fn new_synchronizer_is_idle_and_disabled() {
    let s = Synchronizer::new(false, 42, 7);
    assert_eq!(s.task, Task::Idle);
    assert!(!s.is_repair_enabled());
    assert_eq!(s.full_sync_step, 42);
    assert_eq!(s.last_not_idle, 7);
    assert_eq!(s.full_sync_remaining, 0);
}

#[test]
fn threshold_reconfiguration_takes_effect() {
    let mut s = Synchronizer::new(false, 1, 0);
    assert!(!s.is_repair_enabled());
    s.set_repair_idleness_threshold(RepairIdleness::Threshold(3));
    assert!(s.is_repair_enabled());
    s.set_repair_idleness_threshold(RepairIdleness::Disabled);
    assert!(!s.is_repair_enabled());
}

#[test]
fn todo_item_classifies_events() {
    let put = Event::Putted { version: 7, put_content_timeout: 3 };
    let item = TodoItem::new(&put, 10);
    match item {
        TodoItem::RepairContent { start_time, version } => {
            assert_eq!(start_time, 13);
            assert_eq!(version, 7);
        }
        _ => panic!("a put must become a repair item"),
    }
    let del = Event::Deleted { version: 9 };
    match TodoItem::new(&del, 10) {
        TodoItem::DeleteContent { versions } => assert_eq!(versions, vec![9]),
        _ => panic!("a delete must become a delete batch"),
    }
}

#[test]
fn wait_time_clamps_at_zero() {
    let repair = TodoItem::RepairContent { start_time: 13, version: 7 };
    assert_eq!(repair.wait_time(10), Some(3));
    assert_eq!(repair.wait_time(13), None);
    assert_eq!(repair.wait_time(20), None);
    let delete = TodoItem::DeleteContent { versions: vec![1] };
    assert_eq!(delete.wait_time(0), None);
}

#[test]
fn task_sleeping_states() {
    assert!(Task::Idle.is_sleeping());
    assert!(Task::Wait { deadline: 3 }.is_sleeping());
    assert!(!Task::Delete { versions: vec![1] }.is_sleeping());
    assert!(!Task::Repair { version: 1 }.is_sleeping());
}

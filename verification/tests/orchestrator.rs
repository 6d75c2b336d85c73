//! Lifecycle tests of the pipeline orchestrator: mode exclusivity, clean
//! teardown, cancellation-signal isolation across generations, and the
//! partial-failure join protocol.

use tpu::Tpu;
use tpu::flow::EntryHash;
use tpu::flow::NodeId;
use tpu::stage::StageKind;
use tpu::stage::StagePanic;

fn leader_tpu(max_tick_height: u64, blob_index: u64, sigverify_disabled: bool) -> Tpu {
    Tpu::new(
        0,
        sigverify_disabled,
        max_tick_height,
        blob_index,
        EntryHash { id: 11 },
        NodeId { id: 7 },
        true,
    )
}

#[test]
fn test_mode_exclusivity_across_transitions() {
    let mut t = leader_tpu(3, 0, true);
    assert!(t.is_leader());

    t.switch_to_forwarder();
    assert!(!t.is_leader());

    t.switch_to_leader(0, true, 4, 0, EntryHash { id: 1 }, NodeId { id: 2 });
    assert!(t.is_leader());

    // Re-entering the same mode is a full rebuild, not a no-op.
    t.switch_to_leader(0, true, 5, 0, EntryHash { id: 1 }, NodeId { id: 2 });
    assert!(t.is_leader());

    t.switch_to_forwarder();
    assert!(!t.is_leader());
    let r = t.close();
    assert_eq!(r, Ok(()));
}

#[test]
fn test_forwarder_construction() {
    let mut t = Tpu::new(0, false, 0, 0, EntryHash { id: 0 }, NodeId { id: 0 }, false);
    assert!(!t.is_leader());
    assert!(!t.is_exited());
    assert_eq!(t.stage_start_count, 1);
    assert_eq!(t.stage_stop_count, 0);
    assert_eq!(t.close(), Ok(()));
}

#[test]
fn test_clean_teardown_counts_all_generations() {
    let mut t = leader_tpu(10, 0, true);
    t.switch_to_forwarder();
    t.switch_to_leader(0, true, 8, 0, EntryHash { id: 3 }, NodeId { id: 4 });
    t.switch_to_forwarder();
    t.switch_to_leader(0, true, 9, 0, EntryHash { id: 3 }, NodeId { id: 4 });
    // Five generations: leader, forwarder, leader, forwarder, leader.
    assert_eq!(t.stage_start_count, 5 + 1 + 5 + 1 + 5);
    // All but the live leader set are already joined.
    assert_eq!(t.stage_stop_count, t.stage_start_count - 5);
    let r = t.close();
    assert_eq!(r, Ok(()));
    // Every stage ever started has stopped: nothing leaked.
    assert_eq!(t.stage_stop_count, t.stage_start_count);
}

#[test]
fn test_join_without_cancellation() {
    let mut t = leader_tpu(3, 0, true);
    let r = t.join();
    assert_eq!(r, Ok(()));
    // join() waits but does not request cancellation.
    assert!(!t.is_exited());
    assert_eq!(t.stage_stop_count, t.stage_start_count);
}

#[test]
fn test_exit_is_idempotent_and_sticky() {
    let mut t = leader_tpu(3, 0, true);
    assert!(!t.is_exited());
    t.exit();
    assert!(t.is_exited());
    t.exit();
    assert!(t.is_exited());
    assert_eq!(t.close(), Ok(()));
    assert!(t.is_exited());
}

#[test]
fn test_cancellation_signal_fresh_per_generation() {
    let mut t = leader_tpu(3, 0, true);
    t.exit();
    assert!(t.is_exited());
    // A transition mints a brand-new signal: the old generation's flag must
    // not bleed into the new one.
    t.switch_to_forwarder();
    assert!(!t.is_exited());
    t.exit();
    assert!(t.is_exited());
    t.switch_to_leader(0, true, 3, 0, EntryHash { id: 1 }, NodeId { id: 2 });
    assert!(!t.is_exited());
    assert_eq!(t.close(), Ok(()));
}

#[test]
fn test_partial_failure_join_reports_panic_and_leaks_nothing() {
    let mut t = leader_tpu(3, 0, true);
    assert!(t.inject_worker_panic(StageKind::SigVerify));
    let r = t.close();
    assert_eq!(r, Err(StagePanic { stage: StageKind::SigVerify }));
    // The sibling stages were still joined: no thread handle leaked.
    assert_eq!(t.stage_stop_count, t.stage_start_count);
    assert_eq!(t.stage_stop_count, 5);
}

#[test]
fn test_join_reports_first_panic_in_join_order() {
    // Join order of the leader set is Broadcast, Fetch, SigVerify, vote
    // listener, Banking: with both Banking and Fetch failed, Fetch is first.
    let mut t = leader_tpu(3, 0, true);
    assert!(t.inject_worker_panic(StageKind::Banking));
    assert!(t.inject_worker_panic(StageKind::Fetch));
    let r = t.join();
    assert_eq!(r, Err(StagePanic { stage: StageKind::Fetch }));
    assert_eq!(t.stage_stop_count, t.stage_start_count);
}

#[test]
fn test_forwarder_panic_reported() {
    let mut t = Tpu::new(0, false, 0, 0, EntryHash { id: 0 }, NodeId { id: 0 }, false);
    // The forwarder pipeline has no banking stage to fail.
    assert!(!t.inject_worker_panic(StageKind::Banking));
    assert!(t.inject_worker_panic(StageKind::TpuForwarder));
    let r = t.close();
    assert_eq!(r, Err(StagePanic { stage: StageKind::TpuForwarder }));
    assert_eq!(t.stage_stop_count, t.stage_start_count);
}

#[test]
fn test_transition_discards_old_pipeline_failures() {
    let mut t = leader_tpu(3, 0, true);
    assert!(t.inject_worker_panic(StageKind::Broadcast));
    // The transition joins the failed set to completion and installs a
    // fresh one; a later close reports only the live set.
    t.switch_to_forwarder();
    assert_eq!(t.stage_stop_count, 5);
    let r = t.close();
    assert_eq!(r, Ok(()));
    assert_eq!(t.stage_stop_count, t.stage_start_count);
}

//! Data-flow tests of the leader pipeline: per-channel ordering, the
//! exactly-once rotation notification, gapless broadcast indices, and the
//! end-to-end leader scenario followed by a hot switch to forwarding.

use tpu::Tpu;
use tpu::TpuReturnType;
use tpu::flow::EntryHash;
use tpu::flow::NodeId;
use tpu::flow::Packet;
use tpu::flow::verify_packets;

fn packet(id: u64, sig_valid: bool) -> Packet {
    Packet { id, sig_valid }
}

fn leader_tpu(max_tick_height: u64, blob_index: u64, sigverify_disabled: bool) -> Tpu {
    Tpu::new(
        0,
        sigverify_disabled,
        max_tick_height,
        blob_index,
        EntryHash { id: 99 },
        NodeId { id: 5 },
        true,
    )
}

#[test]
fn test_verify_keeps_order_and_drops_invalid() {
    let packets = vec![
        packet(1, true),
        packet(2, false),
        packet(3, true),
        packet(4, true),
    ];
    let verified = verify_packets(&packets, false);
    let ids: Vec<u64> = verified.iter().map(|p| p.id).collect();
    assert_eq!(ids, vec![1, 3, 4]);
}

#[test]
fn test_verify_bypass_keeps_everything() {
    let packets = vec![packet(1, false), packet(2, false), packet(3, false)];
    let verified = verify_packets(&packets, true);
    let ids: Vec<u64> = verified.iter().map(|p| p.id).collect();
    assert_eq!(ids, vec![1, 2, 3]);
}

#[test]
fn test_ordering_preserved_through_pipeline() {
    // Packets enqueued in order 1, 2, 3 come out of verification, ledger
    // application and broadcast in that same relative order.
    let mut t = leader_tpu(10, 0, false);
    let out = t.process_packets(vec![packet(1, true), packet(2, true), packet(3, true)]);
    let verified_ids: Vec<u64> = out.verified.iter().map(|p| p.id).collect();
    assert_eq!(verified_ids, vec![1, 2, 3]);
    let entry_ids: Vec<u64> = out.entries.iter().map(|e| e.id).collect();
    assert_eq!(entry_ids, vec![1, 2, 3]);
    let blob_ids: Vec<u64> = out.blobs.iter().map(|b| b.entry_id).collect();
    assert_eq!(blob_ids, vec![1, 2, 3]);
    assert_eq!(t.close(), Ok(()));
}

#[test]
fn test_rotation_fires_exactly_once_at_boundary() {
    let mut t = leader_tpu(2, 0, true);
    let out1 = t.process_packets(vec![packet(1, true)]);
    assert!(out1.rotation.is_none());
    let out2 = t.process_packets(vec![packet(2, true)]);
    assert_eq!(out2.rotation, Some(TpuReturnType::LeaderRotation(2)));
    // Leader duty is exhausted: later batches produce no entries and no
    // second notification.
    let out3 = t.process_packets(vec![packet(3, true), packet(4, true)]);
    assert!(out3.rotation.is_none());
    assert_eq!(out3.entries.len(), 0);
    assert_eq!(out3.blobs.len(), 0);
    assert_eq!(t.close(), Ok(()));
}

#[test]
fn test_rotation_when_constructed_at_boundary() {
    // A leader constructed with no tick room left notifies on its first
    // step without applying anything.
    let mut t = Tpu::new(4, true, 4, 0, EntryHash { id: 0 }, NodeId { id: 0 }, true);
    let out = t.process_packets(vec![packet(1, true)]);
    assert_eq!(out.entries.len(), 0);
    assert_eq!(out.rotation, Some(TpuReturnType::LeaderRotation(4)));
    assert_eq!(t.close(), Ok(()));
}

#[test]
fn test_empty_batch_produces_nothing() {
    let mut t = leader_tpu(3, 0, true);
    let out = t.process_packets(Vec::new());
    assert_eq!(out.verified.len(), 0);
    assert_eq!(out.entries.len(), 0);
    assert_eq!(out.blobs.len(), 0);
    assert!(out.rotation.is_none());
    assert_eq!(t.close(), Ok(()));
}

#[test]
fn test_blob_indices_continue_from_configured_start() {
    let mut t = leader_tpu(10, 40, true);
    let out1 = t.process_packets(vec![packet(1, true), packet(2, true)]);
    let idx1: Vec<u64> = out1.blobs.iter().map(|b| b.index).collect();
    assert_eq!(idx1, vec![40, 41]);
    let out2 = t.process_packets(vec![packet(3, true)]);
    let idx2: Vec<u64> = out2.blobs.iter().map(|b| b.index).collect();
    assert_eq!(idx2, vec![42]);
    assert_eq!(t.close(), Ok(()));
}

#[test]
fn test_end_to_end_leader_scenario() {
    // Leader mode, max tick height 3, bypassed verification, 5 injected
    // packets: 5 verified packets, 3 entries (bounded by tick progression),
    // gapless blob indices from the configured start, one rotation.
    let mut t = leader_tpu(3, 10, true);
    let out = t.process_packets(vec![
        packet(1, false),
        packet(2, false),
        packet(3, false),
        packet(4, false),
        packet(5, false),
    ]);
    assert_eq!(out.verified.len(), 5);
    assert_eq!(out.entries.len(), 3);
    let heights: Vec<u64> = out.entries.iter().map(|e| e.tick_height).collect();
    assert_eq!(heights, vec![1, 2, 3]);
    let indices: Vec<u64> = out.blobs.iter().map(|b| b.index).collect();
    assert_eq!(indices, vec![10, 11, 12]);
    assert_eq!(out.rotation, Some(TpuReturnType::LeaderRotation(3)));
    assert_eq!(out.forwarded.len(), 0);

    // The owner reacts to the rotation: all five leader stages are joined
    // before the forwarder relay sees any packet.
    t.switch_to_forwarder();
    assert_eq!(t.stage_stop_count, 5);
    assert_eq!(t.stage_start_count, 6);
    let relayed = t.process_packets(vec![packet(6, false), packet(7, true)]);
    let relayed_ids: Vec<u64> = relayed.forwarded.iter().map(|p| p.id).collect();
    assert_eq!(relayed_ids, vec![6, 7]);
    assert_eq!(relayed.entries.len(), 0);
    assert_eq!(relayed.blobs.len(), 0);
    assert!(relayed.rotation.is_none());
    assert_eq!(t.close(), Ok(()));
    assert_eq!(t.stage_stop_count, t.stage_start_count);
}

#[test]
fn test_invalid_signatures_do_not_advance_ledger() {
    let mut t = leader_tpu(5, 0, false);
    let out = t.process_packets(vec![packet(1, false), packet(2, true), packet(3, false)]);
    assert_eq!(out.verified.len(), 1);
    assert_eq!(out.entries.len(), 1);
    assert_eq!(out.entries[0].id, 2);
    assert_eq!(out.entries[0].tick_height, 1);
    assert!(out.rotation.is_none());
    assert_eq!(t.close(), Ok(()));
}

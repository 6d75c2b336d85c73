//! Data-flow model of one leader pipeline generation.
//!
//! The orchestrator hands raw packets to the installed pipeline; inside a
//! leader pipeline they pass through signature verification, ledger
//! application up to a maximum tick height, and broadcast indexing.  This
//! module states those collaborator contracts over plain values: which
//! packets survive verification, how many entries a step may produce before
//! leader duty is exhausted, when the single rotation notification fires,
//! and how broadcast indices continue gaplessly from the configured start.

use vstd::prelude::*;

use crate::TpuReturnType;

verus! {

/// The content hash of a ledger entry, reduced to the token the orchestrator
/// carries: it never inspects the digest, only threads it through.
#[derive(Clone, Copy, PartialEq, Eq, Structural, Debug)]
pub struct EntryHash {
    /// Opaque token standing for the digest value.
    pub id: u64,
}

/// A node's public identity, reduced to the token the orchestrator carries.
#[derive(Clone, Copy, PartialEq, Eq, Structural, Debug)]
pub struct NodeId {
    /// Opaque token standing for the public key.
    pub id: u64,
}

/// A raw transaction packet as the pipeline model sees it: an opaque payload
/// token plus the verdict the signature verifier would give it.
#[derive(Clone, Copy, PartialEq, Eq, Structural, Debug)]
pub struct Packet {
    /// Opaque token standing for the packet payload.
    pub id: u64,
    /// Whether the packet's signature verifies.
    pub sig_valid: bool,
}

/// A unit of ledger progress: one entry produced by applying a verified
/// packet, stamped with the tick height it advanced the ledger to.
#[derive(Clone, Copy, PartialEq, Eq, Structural, Debug)]
pub struct Entry {
    /// Token of the packet the entry was produced from.
    pub id: u64,
    /// Tick height after this entry was applied.
    pub tick_height: u64,
}

/// The network-transmissible encoding of a ledger entry, stamped with its
/// position in the monotonically increasing broadcast index.
#[derive(Clone, Copy, PartialEq, Eq, Structural, Debug)]
pub struct Blob {
    /// Broadcast index of this blob.
    pub index: u64,
    /// Token of the entry the blob encodes.
    pub entry_id: u64,
}

/// Whether a packet passes signature verification: when verification is
/// bypassed every packet is treated as verified without inspection.
pub open spec fn packet_passes(p: Packet, sigverify_disabled: bool) -> bool {
    sigverify_disabled || p.sig_valid
}

/// The verified batch produced from a stream of raw packets: the packets
/// that pass verification, in their arrival order.
pub open spec fn spec_verified(packets: Seq<Packet>, sigverify_disabled: bool) -> Seq<Packet>
    decreases packets.len(),
{
    if packets.len() == 0 {
        Seq::empty()
    } else {
        let rest = spec_verified(packets.drop_last(), sigverify_disabled);
        if packet_passes(packets.last(), sigverify_disabled) {
            rest.push(packets.last())
        } else {
            rest
        }
    }
}

/// Verification never produces more packets than it was given.
pub proof fn lemma_verified_len(packets: Seq<Packet>, sigverify_disabled: bool)
    ensures
        spec_verified(packets, sigverify_disabled).len() <= packets.len(),
    decreases packets.len(),
{
    if packets.len() > 0 {
        lemma_verified_len(packets.drop_last(), sigverify_disabled);
    }
}

/// With verification bypassed, the verified batch is the raw stream itself:
/// nothing is dropped and nothing is reordered.
pub proof fn lemma_bypass_keeps_all(packets: Seq<Packet>)
    ensures
        spec_verified(packets, true) == packets,
    decreases packets.len(),
{
    if packets.len() == 0 {
        assert(spec_verified(packets, true) =~= packets);
    } else {
        lemma_bypass_keeps_all(packets.drop_last());
        assert(spec_verified(packets, true) =~= packets);
    }
}

/// The signature-verification stage: consumes raw packets, produces the
/// verified batch, preserving each surviving packet's relative order.
pub fn verify_packets(packets: &Vec<Packet>, sigverify_disabled: bool) -> (r: Vec<Packet>)
    ensures
        r@ == spec_verified(packets@, sigverify_disabled),
{
    let mut out: Vec<Packet> = Vec::new();
    let mut i: usize = 0;
    while i < packets.len()
        invariant
            i <= packets@.len(),
            out@ == spec_verified(packets@.take(i as int), sigverify_disabled),
        decreases packets@.len() - i,
    {
        let p = packets[i];
        proof {
            assert(packets@.take(i as int + 1).drop_last() =~= packets@.take(i as int));
            assert(packets@.take(i as int + 1).last() == packets@[i as int]);
        }
        if sigverify_disabled || p.sig_valid {
            out.push(p);
        }
        i = i + 1;
    }
    proof {
        assert(packets@.take(packets@.len() as int) =~= packets@);
    }
    out
}

/// The processing state of one leader pipeline generation: the ledger
/// application's tick progression toward the configured maximum, whether the
/// one rotation notification has fired, and the broadcast stage's running
/// blob index.
#[derive(Clone, Copy, PartialEq, Eq, Structural, Debug)]
pub struct LeaderFlow {
    /// Whether signature verification is bypassed for this generation.
    pub sigverify_disabled: bool,
    /// Current ledger tick height.
    pub tick_height: u64,
    /// Tick height at which leader duty for this period is exhausted.
    pub max_tick_height: u64,
    /// Whether the rotation notification for this generation has fired.
    pub rotation_sent: bool,
    /// Broadcast index the next blob will carry.
    pub next_blob_index: u64,
    /// Content hash of the last ledger entry applied.
    pub last_entry_id: EntryHash,
    /// Identity of the node acting as leader for this generation.
    pub leader_id: NodeId,
}

/// Everything one processing step hands back to the orchestrator's owner.
#[derive(Debug)]
pub struct ProcessOutput {
    /// The verified batch the signature-verification stage produced.
    pub verified: Vec<Packet>,
    /// Ledger entries produced by applying verified packets.
    pub entries: Vec<Entry>,
    /// Indexed broadcast blobs, one per entry.
    pub blobs: Vec<Blob>,
    /// Packets relayed onward (forwarder mode only).
    pub forwarded: Vec<Packet>,
    /// The rotation notification, if this step reached the maximum tick height.
    pub rotation: Option<TpuReturnType>,
}

impl LeaderFlow {
    /// Validity of the flow state: tick progression never passes the
    /// maximum, and the rotation notification only ever fires at it.
    pub open spec fn wf(self) -> bool {
        &&& self.tick_height <= self.max_tick_height
        &&& (self.rotation_sent ==> self.tick_height == self.max_tick_height)
    }

    /// How many of the given packets one processing step applies: every
    /// verified packet, until the tick height reaches the maximum.
    pub open spec fn spec_applied(self, packets: Seq<Packet>) -> int {
        let v = spec_verified(packets, self.sigverify_disabled);
        let room = self.max_tick_height - self.tick_height;
        if v.len() <= room {
            v.len() as int
        } else {
            room
        }
    }

    /// The ledger entries one processing step produces: the applied prefix
    /// of the verified batch, in order, each advancing the tick height by one.
    pub open spec fn spec_entries(self, packets: Seq<Packet>) -> Seq<Entry> {
        let v = spec_verified(packets, self.sigverify_disabled);
        Seq::new(
            self.spec_applied(packets) as nat,
            |i: int| Entry { id: v[i].id, tick_height: (self.tick_height + i + 1) as u64 },
        )
    }

    /// The broadcast blobs one processing step produces: one per entry, in
    /// order, with gapless indices continuing from `next_blob_index`.
    pub open spec fn spec_blobs(self, packets: Seq<Packet>) -> Seq<Blob> {
        let v = spec_verified(packets, self.sigverify_disabled);
        Seq::new(
            self.spec_applied(packets) as nat,
            |i: int| Blob { index: (self.next_blob_index + i) as u64, entry_id: v[i].id },
        )
    }

    /// The rotation notification one processing step emits: exactly one,
    /// carrying the maximum tick height, the first time that height is
    /// reached; never again afterwards.
    pub open spec fn spec_rotation(self, packets: Seq<Packet>) -> Option<TpuReturnType> {
        if !self.rotation_sent && self.tick_height + self.spec_applied(packets)
            == self.max_tick_height {
            Some(TpuReturnType::LeaderRotation(self.max_tick_height))
        } else {
            None
        }
    }

    /// The flow state after one processing step.
    pub open spec fn spec_after(self, packets: Seq<Packet>) -> LeaderFlow {
        let v = spec_verified(packets, self.sigverify_disabled);
        let n = self.spec_applied(packets);
        LeaderFlow {
            tick_height: (self.tick_height + n) as u64,
            next_blob_index: (self.next_blob_index + n) as u64,
            rotation_sent: self.rotation_sent || self.tick_height + n == self.max_tick_height,
            last_entry_id: if n > 0 {
                EntryHash { id: v[n - 1].id }
            } else {
                self.last_entry_id
            },
            ..self
        }
    }

    /// Starts the flow state of a fresh leader pipeline generation.
    pub fn new(
        sigverify_disabled: bool,
        start_tick_height: u64,
        max_tick_height: u64,
        blob_index: u64,
        last_entry_id: EntryHash,
        leader_id: NodeId,
    ) -> (r: LeaderFlow)
        requires
            start_tick_height <= max_tick_height,
        ensures
            r == (LeaderFlow {
                sigverify_disabled,
                tick_height: start_tick_height,
                max_tick_height,
                rotation_sent: false,
                next_blob_index: blob_index,
                last_entry_id,
                leader_id,
            }),
            r.wf(),
    {
        LeaderFlow {
            sigverify_disabled,
            tick_height: start_tick_height,
            max_tick_height,
            rotation_sent: false,
            next_blob_index: blob_index,
            last_entry_id,
            leader_id,
        }
    }

    /// One processing step of the leader pipeline: verify the packets,
    /// apply the verified prefix to the ledger until the maximum tick height
    /// is reached, index the resulting entries for broadcast, and emit the
    /// rotation notification if this step exhausted leader duty.
    pub fn process(&mut self, packets: Vec<Packet>) -> (r: ProcessOutput)
        requires
            old(self).wf(),
            old(self).next_blob_index + packets@.len() <= u64::MAX,
        ensures
            *final(self) == old(self).spec_after(packets@),
            final(self).wf(),
            r.verified@ == spec_verified(packets@, old(self).sigverify_disabled),
            r.entries@ == old(self).spec_entries(packets@),
            r.blobs@ == old(self).spec_blobs(packets@),
            r.forwarded@ == Seq::<Packet>::empty(),
            r.rotation == old(self).spec_rotation(packets@),
    {
        let sigverify_disabled = self.sigverify_disabled;
        let verified = verify_packets(&packets, sigverify_disabled);
        proof {
            lemma_verified_len(packets@, sigverify_disabled);
        }
        let tick0: u64 = self.tick_height;
        let max0: u64 = self.max_tick_height;
        let blob0: u64 = self.next_blob_index;
        let room: u64 = max0 - tick0;
        let vlen: usize = verified.len();
        let n: usize = if (vlen as u64) <= room {
            vlen
        } else {
            proof {
                assert(room <= usize::MAX as u64);
            }
            room as usize
        };
        proof {
            assert(n as int == self.spec_applied(packets@));
        }
        let mut entries: Vec<Entry> = Vec::new();
        let mut blobs: Vec<Blob> = Vec::new();
        let mut i: usize = 0;
        while i < n
            invariant
                i <= n,
                n <= verified@.len(),
                verified@ == spec_verified(packets@, sigverify_disabled),
                tick0 + n <= max0,
                blob0 + n <= u64::MAX,
                entries@.len() == i,
                blobs@.len() == i,
                forall|j: int| 0 <= j < i ==> entries@[j] == (Entry {
                    id: verified@[j].id,
                    tick_height: (tick0 + j + 1) as u64,
                }),
                forall|j: int| 0 <= j < i ==> blobs@[j] == (Blob {
                    index: (blob0 + j) as u64,
                    entry_id: verified@[j].id,
                }),
            decreases n - i,
        {
            let p = verified[i];
            let h: u64 = tick0 + (i as u64) + 1;
            entries.push(Entry { id: p.id, tick_height: h });
            blobs.push(Blob { index: blob0 + (i as u64), entry_id: p.id });
            i = i + 1;
        }
        if n > 0 {
            let lastp = verified[n - 1];
            self.last_entry_id = EntryHash { id: lastp.id };
        }
        self.tick_height = tick0 + (n as u64);
        self.next_blob_index = blob0 + (n as u64);
        let rotation: Option<TpuReturnType> = if self.tick_height == self.max_tick_height
            && !self.rotation_sent {
            self.rotation_sent = true;
            Some(TpuReturnType::LeaderRotation(self.max_tick_height))
        } else {
            None
        };
        proof {
            assert(entries@ =~= old(self).spec_entries(packets@));
            assert(blobs@ =~= old(self).spec_blobs(packets@));
        }
        ProcessOutput { verified, entries, blobs, forwarded: Vec::new(), rotation }
    }
}

/// Ordering is preserved along the whole chain: the packets that survive
/// verification keep their arrival order, and the entry and blob at each
/// position carry exactly the verified packet at that position, with
/// contiguous tick heights and broadcast indices.
pub proof fn lemma_ordering_preserved(f: LeaderFlow, packets: Seq<Packet>, i: int)
    requires
        f.wf(),
        f.next_blob_index + f.spec_applied(packets) <= u64::MAX,
        0 <= i < f.spec_applied(packets),
    ensures
        f.spec_entries(packets)[i].id == spec_verified(packets, f.sigverify_disabled)[i].id,
        f.spec_entries(packets)[i].tick_height == f.tick_height + i + 1,
        f.spec_blobs(packets)[i].entry_id == spec_verified(packets, f.sigverify_disabled)[i].id,
        f.spec_blobs(packets)[i].index == f.next_blob_index + i,
{
}

/// A rotation notification fires exactly once per boundary: a step emits one
/// exactly when it is the step that brings the tick height to the maximum,
/// the notification carries that height, and once the notification has fired
/// no step ever emits another.
pub proof fn lemma_rotation_fires_once(f: LeaderFlow, packets: Seq<Packet>)
    requires
        f.wf(),
    ensures
        f.spec_after(packets).wf(),
        f.spec_rotation(packets) is Some <==> (!f.rotation_sent
            && f.spec_after(packets).tick_height == f.max_tick_height),
        f.spec_rotation(packets) matches Some(n)
            ==> n == TpuReturnType::LeaderRotation(f.max_tick_height),
        f.rotation_sent ==> f.spec_rotation(packets) is None,
{
}

/// Once a step has emitted the rotation notification, no later step emits
/// one, whatever packets arrive afterwards.
pub proof fn lemma_rotation_not_repeated(f: LeaderFlow, first: Seq<Packet>, later: Seq<Packet>)
    requires
        f.wf(),
        f.spec_rotation(first) is Some,
    ensures
        f.spec_after(first).spec_rotation(later) is None,
{
}

} // verus!

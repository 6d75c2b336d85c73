//! Lifecycle model of a single pipeline stage.
//!
//! Every stage of the transaction-processing pipeline, whatever its internal
//! complexity, satisfies one uniform contract: `close` requests termination
//! and `join` waits for the stage's worker threads and reports whether any of
//! them terminated abnormally.  The orchestrator's teardown logic is written
//! once against this contract, independent of the concrete stage kinds.

use vstd::prelude::*;

verus! {

/// Which concrete stage of a pipeline a handle stands for.
#[derive(Clone, Copy, PartialEq, Eq, Structural, Debug)]
pub enum StageKind {
    /// Reads raw transaction packets from the inbound sockets.
    Fetch,
    /// Consumes raw packets, produces verified batches.
    SigVerify,
    /// Applies verified batches to ledger state, produces ledger entries.
    Banking,
    /// Merges externally sourced vote transactions into the packet stream.
    VoteListener,
    /// Serializes ledger entries against a running index and transmits them.
    Broadcast,
    /// Relays raw packets to the current leader (forwarder mode's one stage).
    TpuForwarder,
}

/// Lifecycle state of a stage handle.
#[derive(Clone, Copy, PartialEq, Eq, Structural, Debug)]
pub enum StageState {
    /// Worker threads are running.
    Running,
    /// Termination was requested; workers are draining and exiting.
    Closed,
    /// All worker threads have been waited for.
    Joined,
}

/// Reported by `join` when one of a stage's worker threads terminated
/// abnormally (panicked) instead of exiting its loop.
#[derive(Clone, Copy, PartialEq, Eq, Structural, Debug)]
pub struct StagePanic {
    /// The stage whose worker failed.
    pub stage: StageKind,
}

/// A handle to one stage of a pipeline generation.
///
/// The handle records which generation's cancellation signal the stage's
/// workers watch, the lifecycle state, and whether a worker has terminated
/// abnormally (`worker_panicked` is the synthetic fault-injection point that
/// stands for a real worker panic).
#[derive(Clone, Copy, PartialEq, Eq, Structural, Debug)]
pub struct Stage {
    /// Which stage this handle stands for.
    pub kind: StageKind,
    /// Index of the pipeline generation (and cancellation signal) it belongs to.
    pub generation: usize,
    /// Lifecycle state.
    pub state: StageState,
    /// Whether a worker thread of this stage has terminated abnormally.
    pub worker_panicked: bool,
}

impl Stage {
    /// The result `join` reports for this handle: the first abnormal worker
    /// termination, or success.
    pub open spec fn spec_join_result(self) -> Result<(), StagePanic> {
        if self.worker_panicked {
            Err(StagePanic { stage: self.kind })
        } else {
            Ok(())
        }
    }

    /// Starts a stage for the given pipeline generation: workers running,
    /// none failed.
    pub fn new(kind: StageKind, generation: usize) -> (r: Stage)
        ensures
            r == (Stage { kind, generation, state: StageState::Running, worker_panicked: false }),
    {
        Stage { kind, generation, state: StageState::Running, worker_panicked: false }
    }

    /// Requests termination.  Beyond what the shared cancellation signal
    /// already triggers, this is where a network-listening stage unblocks
    /// workers parked in blocking receives; the handle itself only moves to
    /// `Closed`.
    pub fn close(&mut self)
        ensures
            *final(self) == (Stage { state: StageState::Closed, ..*old(self) }),
    {
        self.state = StageState::Closed;
    }

    /// Waits until every worker thread of the stage has exited and reports
    /// whether one of them terminated abnormally.  Consumes the handle, so it
    /// can be called at most once per stage instance.
    pub fn join(self) -> (r: Result<(), StagePanic>)
        ensures
            r == self.spec_join_result(),
    {
        if self.worker_panicked {
            Err(StagePanic { stage: self.kind })
        } else {
            Ok(())
        }
    }
}

} // verus!

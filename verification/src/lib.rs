//! The transaction-processing-unit (TPU) pipeline orchestrator.
//!
//! A validator node runs its transaction pipeline in exactly one of two
//! modes: as the *leader* it fetches packets, verifies signatures, applies
//! transactions to ledger state and broadcasts the resulting entries; as a
//! *forwarder* it relays packets to the current leader.  The orchestrator
//! owns the installed mode and the per-generation cancellation signal,
//! performs hot transitions between modes, and runs the shutdown/join
//! protocol that leaves no stage running and no worker panic unreported.

pub mod flow;
pub mod stage;

use vstd::prelude::*;

use crate::flow::EntryHash;
use crate::flow::LeaderFlow;
use crate::flow::NodeId;
use crate::flow::Packet;
use crate::flow::ProcessOutput;
use crate::flow::spec_verified;
use crate::stage::Stage;
use crate::stage::StageKind;
use crate::stage::StagePanic;
use crate::stage::StageState;

verus! {

/// A notification sent back to the orchestrator's owner: leader rotation
/// occurred at the given tick height, so leader duty for this period is
/// exhausted.
#[derive(Clone, Copy, PartialEq, Eq, Structural, Debug)]
pub enum TpuReturnType {
    /// Leader rotation at the contained tick height.
    LeaderRotation(u64),
}

/// The five stage handles of a leader pipeline, created together and
/// destroyed together as one unit.
#[derive(Clone, Copy, PartialEq, Eq, Structural, Debug)]
pub struct LeaderServices {
    /// Fetch stage handle.
    pub fetch_stage: Stage,
    /// Signature-verification stage handle.
    pub sigverify_stage: Stage,
    /// Ledger-application (banking) stage handle.
    pub banking_stage: Stage,
    /// Vote-merge listener handle.
    pub cluster_info_vote_listener: Stage,
    /// Broadcast stage handle.
    pub broadcast_service: Stage,
    /// Processing state of this generation's data flow.
    pub flow: LeaderFlow,
}

impl LeaderServices {
    /// Collects five freshly started stage handles into one leader pipeline set.
    pub fn new(
        fetch_stage: Stage,
        sigverify_stage: Stage,
        banking_stage: Stage,
        cluster_info_vote_listener: Stage,
        broadcast_service: Stage,
        flow: LeaderFlow,
    ) -> (r: LeaderServices)
        ensures
            r == (LeaderServices {
                fetch_stage,
                sigverify_stage,
                banking_stage,
                cluster_info_vote_listener,
                broadcast_service,
                flow,
            }),
    {
        LeaderServices {
            fetch_stage,
            sigverify_stage,
            banking_stage,
            cluster_info_vote_listener,
            broadcast_service,
            flow,
        }
    }
}

/// The single relay stage of a forwarder pipeline.
#[derive(Clone, Copy, PartialEq, Eq, Structural, Debug)]
pub struct ForwarderServices {
    /// The relay stage handle.
    pub tpu_forwarder: Stage,
}

impl ForwarderServices {
    /// Wraps the relay stage handle as the forwarder pipeline set.
    pub fn new(tpu_forwarder: Stage) -> (r: ForwarderServices)
        ensures
            r == (ForwarderServices { tpu_forwarder }),
    {
        ForwarderServices { tpu_forwarder }
    }
}

/// The operating mode installed in the orchestrator: exactly one of a leader
/// pipeline or a forwarder pipeline.  "Both running" is unrepresentable.
#[derive(Clone, Copy, PartialEq, Eq, Structural, Debug)]
pub enum TpuMode {
    /// The five-stage leader pipeline.
    Leader(LeaderServices),
    /// The one-stage forwarder pipeline.
    Forwarder(ForwarderServices),
}

/// A closed copy of a stage handle: termination requested, nothing else
/// changed.
pub open spec fn spec_stage_closed(s: Stage) -> Stage {
    Stage { state: StageState::Closed, ..s }
}

/// The installed mode after termination has been requested of every stage:
/// the same pipeline, every stage handle moved to `Closed`.
pub open spec fn spec_mode_closed(m: Option<TpuMode>) -> Option<TpuMode> {
    match m {
        Some(TpuMode::Leader(s)) => Some(TpuMode::Leader(LeaderServices {
            fetch_stage: spec_stage_closed(s.fetch_stage),
            sigverify_stage: spec_stage_closed(s.sigverify_stage),
            banking_stage: spec_stage_closed(s.banking_stage),
            cluster_info_vote_listener: spec_stage_closed(s.cluster_info_vote_listener),
            broadcast_service: spec_stage_closed(s.broadcast_service),
            ..s
        })),
        Some(TpuMode::Forwarder(f)) => Some(TpuMode::Forwarder(ForwarderServices {
            tpu_forwarder: spec_stage_closed(f.tpu_forwarder),
        })),
        None => None,
    }
}

/// The transaction-processing-unit pipeline orchestrator.
///
/// It owns the installed operating mode and the cancellation signal of the
/// current pipeline generation, performs atomic mode transitions (tear down,
/// mint a fresh signal, build, install), and runs the shutdown/join protocol.
/// The stage start/stop counters record, across all generations, how many
/// stages were ever started and how many have been joined, so a caller can
/// check that teardown leaked nothing.
pub struct Tpu {
    /// The installed operating mode; `None` only transiently before the
    /// first mode is installed and after the orchestrator is retired.
    pub tpu_mode: Option<TpuMode>,
    /// One cancellation flag per pipeline generation, in order of creation;
    /// the last is the current generation's.  A flag is one-way: once set it
    /// is never cleared, and transitions mint a fresh one instead of reusing
    /// the old.
    pub signals: Vec<bool>,
    /// How many stages were ever started, across all generations.
    pub stage_start_count: u64,
    /// How many started stages have been joined to completion.
    pub stage_stop_count: u64,
    /// Whether `close` or `join` has retired the orchestrator.
    pub closed: bool,
}

impl Tpu {
    /// Whether the leader pipeline is installed.
    pub open spec fn spec_is_leader(&self) -> bool {
        self.tpu_mode matches Some(TpuMode::Leader(_))
    }

    /// Whether the forwarder pipeline is installed.
    pub open spec fn spec_is_forwarder(&self) -> bool {
        self.tpu_mode matches Some(TpuMode::Forwarder(_))
    }

    /// Whether any pipeline is installed.
    pub open spec fn spec_installed(&self) -> bool {
        self.tpu_mode is Some
    }

    /// Index of the current pipeline generation.
    pub open spec fn spec_generation(&self) -> int {
        self.signals@.len() - 1
    }

    /// Whether the current generation's cancellation signal is set.
    pub open spec fn spec_is_exited(&self) -> bool {
        self.signals@.last()
    }

    /// How many stages the installed pipeline runs.
    pub open spec fn spec_live_stages(&self) -> int {
        match self.tpu_mode {
            Some(TpuMode::Leader(_)) => 5,
            Some(TpuMode::Forwarder(_)) => 1,
            None => 0,
        }
    }

    /// The processing state of the installed leader pipeline.
    pub open spec fn spec_flow(&self) -> LeaderFlow
        recommends
            self.spec_is_leader(),
    {
        match self.tpu_mode {
            Some(TpuMode::Leader(s)) => s.flow,
            _ => arbitrary(),
        }
    }

    /// The installed stage handle of the given kind, if the installed
    /// pipeline has one.
    pub open spec fn spec_stage(&self, kind: StageKind) -> Option<Stage> {
        match self.tpu_mode {
            Some(TpuMode::Leader(s)) => {
                if kind == StageKind::Fetch {
                    Some(s.fetch_stage)
                } else if kind == StageKind::SigVerify {
                    Some(s.sigverify_stage)
                } else if kind == StageKind::Banking {
                    Some(s.banking_stage)
                } else if kind == StageKind::VoteListener {
                    Some(s.cluster_info_vote_listener)
                } else if kind == StageKind::Broadcast {
                    Some(s.broadcast_service)
                } else {
                    None
                }
            }
            Some(TpuMode::Forwarder(f)) => {
                if kind == StageKind::TpuForwarder {
                    Some(f.tpu_forwarder)
                } else {
                    None
                }
            }
            None => None,
        }
    }

    /// Whether the installed pipeline has a stage of the given kind.
    pub open spec fn spec_has_stage(&self, kind: StageKind) -> bool {
        self.spec_stage(kind) is Some
    }

    /// Validity of the installed stage handles: each field holds the stage
    /// of its kind, every stage belongs to the current generation (so no
    /// stray signal of a torn-down generation can cancel it), none has been
    /// joined while still installed, and the flow state is valid.
    pub open spec fn stages_wf(&self) -> bool {
        match self.tpu_mode {
            Some(TpuMode::Leader(s)) => {
                &&& s.fetch_stage.kind == StageKind::Fetch
                &&& s.sigverify_stage.kind == StageKind::SigVerify
                &&& s.banking_stage.kind == StageKind::Banking
                &&& s.cluster_info_vote_listener.kind == StageKind::VoteListener
                &&& s.broadcast_service.kind == StageKind::Broadcast
                &&& s.fetch_stage.generation == self.spec_generation()
                &&& s.sigverify_stage.generation == self.spec_generation()
                &&& s.banking_stage.generation == self.spec_generation()
                &&& s.cluster_info_vote_listener.generation == self.spec_generation()
                &&& s.broadcast_service.generation == self.spec_generation()
                &&& s.fetch_stage.state != StageState::Joined
                &&& s.sigverify_stage.state != StageState::Joined
                &&& s.banking_stage.state != StageState::Joined
                &&& s.cluster_info_vote_listener.state != StageState::Joined
                &&& s.broadcast_service.state != StageState::Joined
                &&& s.flow.wf()
            }
            Some(TpuMode::Forwarder(f)) => {
                &&& f.tpu_forwarder.kind == StageKind::TpuForwarder
                &&& f.tpu_forwarder.generation == self.spec_generation()
                &&& f.tpu_forwarder.state != StageState::Joined
            }
            None => true,
        }
    }

    /// Validity of the whole orchestrator state: at least one signal
    /// generation exists, the stage accounting balances (every stage ever
    /// started is either live in the installed pipeline or has been joined),
    /// a retired orchestrator has nothing installed, and the installed
    /// stages are valid.
    pub open spec fn wf(&self) -> bool {
        &&& self.signals@.len() >= 1
        &&& self.stage_stop_count <= self.stage_start_count
        &&& self.stage_start_count - self.stage_stop_count == self.spec_live_stages()
        &&& (self.closed ==> self.tpu_mode is None)
        &&& self.stages_wf()
    }

    /// The result the shutdown/join protocol reports for the installed
    /// pipeline: the first abnormal worker termination in join order
    /// (Broadcast, Fetch, SigVerify, vote listener, Banking for the leader
    /// set), or success.
    pub open spec fn spec_join_result(&self) -> Result<(), StagePanic> {
        match self.tpu_mode {
            Some(TpuMode::Leader(s)) => {
                if s.broadcast_service.worker_panicked {
                    s.broadcast_service.spec_join_result()
                } else if s.fetch_stage.worker_panicked {
                    s.fetch_stage.spec_join_result()
                } else if s.sigverify_stage.worker_panicked {
                    s.sigverify_stage.spec_join_result()
                } else if s.cluster_info_vote_listener.worker_panicked {
                    s.cluster_info_vote_listener.spec_join_result()
                } else {
                    s.banking_stage.spec_join_result()
                }
            }
            Some(TpuMode::Forwarder(f)) => f.tpu_forwarder.spec_join_result(),
            None => Ok(()),
        }
    }

    /// Constructs the orchestrator and installs its first mode, selected by
    /// `is_leader`: the full five-stage leader pipeline, or the one-stage
    /// forwarder.  The first cancellation signal is freshly minted and unset.
    pub fn new(
        start_tick_height: u64,
        sigverify_disabled: bool,
        max_tick_height: u64,
        blob_index: u64,
        last_entry_id: EntryHash,
        leader_id: NodeId,
        is_leader: bool,
    ) -> (r: Tpu)
        requires
            is_leader ==> start_tick_height <= max_tick_height,
        ensures
            r.wf(),
            r.spec_is_leader() == is_leader,
            r.spec_is_forwarder() == !is_leader,
            !r.spec_is_exited(),
            !r.closed,
            r.stage_start_count == if is_leader { 5u64 } else { 1u64 },
            r.stage_stop_count == 0,
            is_leader ==> r.spec_flow() == (LeaderFlow {
                sigverify_disabled,
                tick_height: start_tick_height,
                max_tick_height,
                rotation_sent: false,
                next_blob_index: blob_index,
                last_entry_id,
                leader_id,
            }),
    {
        let mut signals: Vec<bool> = Vec::new();
        signals.push(false);
        let mut tpu = Tpu {
            tpu_mode: None,
            signals,
            stage_start_count: 0,
            stage_stop_count: 0,
            closed: false,
        };
        if is_leader {
            tpu.switch_to_leader(
                start_tick_height,
                sigverify_disabled,
                max_tick_height,
                blob_index,
                last_entry_id,
                leader_id,
            );
        } else {
            tpu.switch_to_forwarder();
        }
        tpu
    }

    /// Requests termination of the installed pipeline: sets the current
    /// generation's cancellation signal, then closes every installed stage
    /// in upstream-first order (Fetch, vote listener, SigVerify, Banking,
    /// Broadcast), so producers stop before consumers are asked to finish.
    /// No stage is joined and nothing is uninstalled.
    pub fn tpu_mode_close(&mut self)
        requires
            old(self).wf(),
        ensures
            final(self).wf(),
            final(self).signals@ == old(self).signals@.update(
                old(self).signals@.len() - 1,
                true,
            ),
            final(self).stage_start_count == old(self).stage_start_count,
            final(self).stage_stop_count == old(self).stage_stop_count,
            final(self).closed == old(self).closed,
            final(self).tpu_mode == spec_mode_closed(old(self).tpu_mode),
    {
        self.exit();
        let mode = self.tpu_mode;
        match mode {
            Some(TpuMode::Leader(s)) => {
                let mut s2 = s;
                s2.fetch_stage.close();
                s2.cluster_info_vote_listener.close();
                s2.sigverify_stage.close();
                s2.banking_stage.close();
                s2.broadcast_service.close();
                self.tpu_mode = Some(TpuMode::Leader(s2));
            }
            Some(TpuMode::Forwarder(f)) => {
                let mut f2 = f;
                f2.tpu_forwarder.close();
                self.tpu_mode = Some(TpuMode::Forwarder(f2));
            }
            None => {}
        }
    }

    /// Joins every installed stage in downstream-first order and uninstalls
    /// the pipeline, reporting the first abnormal worker termination while
    /// still joining all remaining stages, so no thread handle is leaked.
    fn join_installed(&mut self) -> (r: Result<(), StagePanic>)
        requires
            old(self).wf(),
        ensures
            final(self).wf(),
            final(self).tpu_mode is None,
            final(self).signals@ == old(self).signals@,
            final(self).stage_start_count == old(self).stage_start_count,
            final(self).stage_stop_count == old(self).stage_stop_count
                + old(self).spec_live_stages(),
            final(self).closed == old(self).closed,
            r == old(self).spec_join_result(),
    {
        let mode = self.tpu_mode;
        self.tpu_mode = None;
        match mode {
            Some(TpuMode::Leader(s)) => {
                let broadcast_result = s.broadcast_service.join();
                let fetch_result = s.fetch_stage.join();
                let sigverify_result = s.sigverify_stage.join();
                let vote_listener_result = s.cluster_info_vote_listener.join();
                let banking_result = s.banking_stage.join();
                self.stage_stop_count = self.stage_stop_count + 5;
                if broadcast_result.is_err() {
                    broadcast_result
                } else if fetch_result.is_err() {
                    fetch_result
                } else if sigverify_result.is_err() {
                    sigverify_result
                } else if vote_listener_result.is_err() {
                    vote_listener_result
                } else {
                    banking_result
                }
            }
            Some(TpuMode::Forwarder(f)) => {
                let forwarder_result = f.tpu_forwarder.join();
                self.stage_stop_count = self.stage_stop_count + 1;
                forwarder_result
            }
            None => Ok(()),
        }
    }

    /// Atomically replaces the installed pipeline with a fresh forwarder
    /// pipeline: the old pipeline is told to stop and joined to completion,
    /// a new cancellation signal is minted, and the relay stage is started
    /// under it.
    pub fn switch_to_forwarder(&mut self)
        requires
            old(self).wf(),
            !old(self).closed,
            old(self).stage_start_count + 1 <= u64::MAX,
        ensures
            final(self).wf(),
            final(self).spec_is_forwarder(),
            !final(self).spec_is_exited(),
            !final(self).closed,
            final(self).signals@ == old(self).signals@.update(
                old(self).signals@.len() - 1,
                true,
            ).push(false),
            final(self).stage_start_count == old(self).stage_start_count + 1,
            final(self).stage_stop_count == old(self).stage_stop_count
                + old(self).spec_live_stages(),
            final(self).spec_stage(StageKind::TpuForwarder) == Some(Stage {
                kind: StageKind::TpuForwarder,
                generation: old(self).signals@.len() as usize,
                state: StageState::Running,
                worker_panicked: false,
            }),
    {
        self.tpu_mode_close();
        let _ = self.join_installed();
        self.signals.push(false);
        let generation: usize = self.signals.len() - 1;
        let tpu_forwarder = Stage::new(StageKind::TpuForwarder, generation);
        self.tpu_mode = Some(TpuMode::Forwarder(ForwarderServices::new(tpu_forwarder)));
        self.stage_start_count = self.stage_start_count + 1;
    }

    /// Atomically replaces the installed pipeline with a fresh five-stage
    /// leader pipeline: the old pipeline is told to stop and joined to
    /// completion, a new cancellation signal is minted, and the Fetch, vote
    /// listener, SigVerify, Banking and Broadcast stages are started under
    /// it with the given ledger position, verification setting and starting
    /// broadcast index.
    pub fn switch_to_leader(
        &mut self,
        start_tick_height: u64,
        sigverify_disabled: bool,
        max_tick_height: u64,
        blob_index: u64,
        last_entry_id: EntryHash,
        leader_id: NodeId,
    )
        requires
            old(self).wf(),
            !old(self).closed,
            start_tick_height <= max_tick_height,
            old(self).stage_start_count + 5 <= u64::MAX,
        ensures
            final(self).wf(),
            final(self).spec_is_leader(),
            !final(self).spec_is_exited(),
            !final(self).closed,
            final(self).signals@ == old(self).signals@.update(
                old(self).signals@.len() - 1,
                true,
            ).push(false),
            final(self).stage_start_count == old(self).stage_start_count + 5,
            final(self).stage_stop_count == old(self).stage_stop_count
                + old(self).spec_live_stages(),
            final(self).spec_flow() == (LeaderFlow {
                sigverify_disabled,
                tick_height: start_tick_height,
                max_tick_height,
                rotation_sent: false,
                next_blob_index: blob_index,
                last_entry_id,
                leader_id,
            }),
            forall|k: StageKind| final(self).spec_has_stage(k) ==> final(self).spec_stage(k)
                == Some(Stage {
                    kind: k,
                    generation: old(self).signals@.len() as usize,
                    state: StageState::Running,
                    worker_panicked: false,
                }),
    {
        self.tpu_mode_close();
        let _ = self.join_installed();
        self.signals.push(false);
        let generation: usize = self.signals.len() - 1;
        let fetch_stage = Stage::new(StageKind::Fetch, generation);
        let cluster_info_vote_listener = Stage::new(StageKind::VoteListener, generation);
        let sigverify_stage = Stage::new(StageKind::SigVerify, generation);
        let banking_stage = Stage::new(StageKind::Banking, generation);
        let broadcast_service = Stage::new(StageKind::Broadcast, generation);
        let flow = LeaderFlow::new(
            sigverify_disabled,
            start_tick_height,
            max_tick_height,
            blob_index,
            last_entry_id,
            leader_id,
        );
        let svcs = LeaderServices::new(
            fetch_stage,
            sigverify_stage,
            banking_stage,
            cluster_info_vote_listener,
            broadcast_service,
            flow,
        );
        self.tpu_mode = Some(TpuMode::Leader(svcs));
        self.stage_start_count = self.stage_start_count + 5;
    }

    /// Whether the leader pipeline is currently installed.
    pub fn is_leader(&self) -> (r: bool)
        ensures
            r == self.spec_is_leader(),
    {
        match self.tpu_mode {
            Some(TpuMode::Leader(_)) => true,
            _ => false,
        }
    }

    /// Sets the current generation's cancellation signal.  Idempotent,
    /// one-way, and returns without joining; every other generation's flag
    /// is left untouched.
    pub fn exit(&mut self)
        requires
            old(self).wf(),
        ensures
            final(self).wf(),
            final(self).spec_is_exited(),
            final(self).signals@ == old(self).signals@.update(
                old(self).signals@.len() - 1,
                true,
            ),
            final(self).tpu_mode == old(self).tpu_mode,
            final(self).stage_start_count == old(self).stage_start_count,
            final(self).stage_stop_count == old(self).stage_stop_count,
            final(self).closed == old(self).closed,
    {
        let _prev = self.signals.pop();
        self.signals.push(true);
        proof {
            assert(self.signals@ =~= old(self).signals@.update(
                old(self).signals@.len() - 1,
                true,
            ));
        }
    }

    /// Whether the current generation's cancellation signal is set.
    pub fn is_exited(&self) -> (r: bool)
        requires
            self.wf(),
        ensures
            r == self.spec_is_exited(),
    {
        self.signals[self.signals.len() - 1]
    }

    /// Full blocking teardown: sets the cancellation signal, closes every
    /// installed stage in upstream-first order, joins them in
    /// downstream-first order, and retires the orchestrator.  Reports the
    /// first abnormal worker termination, after joining all stages.
    pub fn close(&mut self) -> (r: Result<(), StagePanic>)
        requires
            old(self).wf(),
        ensures
            final(self).wf(),
            final(self).closed,
            final(self).tpu_mode is None,
            final(self).signals@ == old(self).signals@.update(
                old(self).signals@.len() - 1,
                true,
            ),
            final(self).stage_start_count == old(self).stage_start_count,
            final(self).stage_stop_count == final(self).stage_start_count,
            r == old(self).spec_join_result(),
    {
        self.tpu_mode_close();
        let r = self.join_installed();
        self.closed = true;
        r
    }

    /// Blocking wait without requesting cancellation: joins every installed
    /// stage in downstream-first order and retires the orchestrator, for a
    /// caller that already knows the process is stopping externally.
    /// Reports the first abnormal worker termination, after joining all
    /// stages; no cancellation flag is touched.
    pub fn join(&mut self) -> (r: Result<(), StagePanic>)
        requires
            old(self).wf(),
        ensures
            final(self).wf(),
            final(self).closed,
            final(self).tpu_mode is None,
            final(self).signals@ == old(self).signals@,
            final(self).stage_start_count == old(self).stage_start_count,
            final(self).stage_stop_count == final(self).stage_start_count,
            r == old(self).spec_join_result(),
    {
        let r = self.join_installed();
        self.closed = true;
        r
    }

    /// Marks one worker thread of the installed stage of the given kind as
    /// abnormally terminated, as a synthetic fault a test can inject.
    /// Returns whether the installed pipeline has such a stage; nothing
    /// else about the orchestrator changes.
    pub fn inject_worker_panic(&mut self, kind: StageKind) -> (r: bool)
        requires
            old(self).wf(),
        ensures
            final(self).wf(),
            r == old(self).spec_has_stage(kind),
            final(self).signals@ == old(self).signals@,
            final(self).stage_start_count == old(self).stage_start_count,
            final(self).stage_stop_count == old(self).stage_stop_count,
            final(self).closed == old(self).closed,
            final(self).spec_is_leader() == old(self).spec_is_leader(),
            final(self).spec_is_forwarder() == old(self).spec_is_forwarder(),
            old(self).spec_is_leader() ==> final(self).spec_flow() == old(self).spec_flow(),
            forall|k: StageKind| k != kind ==> final(self).spec_stage(k)
                == old(self).spec_stage(k),
            r ==> ({
                &&& final(self).spec_stage(kind) matches Some(st)
                &&& old(self).spec_stage(kind) matches Some(st0)
                &&& st == (Stage { worker_panicked: true, ..st0 })
            }),
            !r ==> final(self).spec_stage(kind) == old(self).spec_stage(kind),
    {
        let mode = self.tpu_mode;
        match mode {
            Some(TpuMode::Leader(s)) => {
                let mut s2 = s;
                let hit: bool;
                match kind {
                    StageKind::Fetch => {
                        s2.fetch_stage.worker_panicked = true;
                        hit = true;
                    }
                    StageKind::SigVerify => {
                        s2.sigverify_stage.worker_panicked = true;
                        hit = true;
                    }
                    StageKind::Banking => {
                        s2.banking_stage.worker_panicked = true;
                        hit = true;
                    }
                    StageKind::VoteListener => {
                        s2.cluster_info_vote_listener.worker_panicked = true;
                        hit = true;
                    }
                    StageKind::Broadcast => {
                        s2.broadcast_service.worker_panicked = true;
                        hit = true;
                    }
                    StageKind::TpuForwarder => {
                        hit = false;
                    }
                }
                self.tpu_mode = Some(TpuMode::Leader(s2));
                hit
            }
            Some(TpuMode::Forwarder(f)) => {
                let mut f2 = f;
                let hit: bool;
                match kind {
                    StageKind::TpuForwarder => {
                        f2.tpu_forwarder.worker_panicked = true;
                        hit = true;
                    }
                    _ => {
                        hit = false;
                    }
                }
                self.tpu_mode = Some(TpuMode::Forwarder(f2));
                hit
            }
            None => false,
        }
    }

    /// Hands one batch of arriving packets to the installed pipeline.  A
    /// leader pipeline verifies them, applies the verified prefix to the
    /// ledger until the maximum tick height is reached, and indexes the
    /// entries for broadcast; a forwarder pipeline relays the packets
    /// onward unchanged and in order.
    pub fn process_packets(&mut self, packets: Vec<Packet>) -> (r: ProcessOutput)
        requires
            old(self).wf(),
            old(self).spec_installed(),
            old(self).spec_is_leader() ==> old(self).spec_flow().next_blob_index
                + packets@.len() <= u64::MAX,
        ensures
            final(self).wf(),
            final(self).signals@ == old(self).signals@,
            final(self).stage_start_count == old(self).stage_start_count,
            final(self).stage_stop_count == old(self).stage_stop_count,
            final(self).closed == old(self).closed,
            final(self).spec_is_leader() == old(self).spec_is_leader(),
            final(self).spec_is_forwarder() == old(self).spec_is_forwarder(),
            forall|k: StageKind| final(self).spec_stage(k) == old(self).spec_stage(k),
            old(self).spec_is_leader() ==> {
                &&& final(self).spec_flow() == old(self).spec_flow().spec_after(packets@)
                &&& r.verified@ == spec_verified(
                    packets@,
                    old(self).spec_flow().sigverify_disabled,
                )
                &&& r.entries@ == old(self).spec_flow().spec_entries(packets@)
                &&& r.blobs@ == old(self).spec_flow().spec_blobs(packets@)
                &&& r.forwarded@ == Seq::<Packet>::empty()
                &&& r.rotation == old(self).spec_flow().spec_rotation(packets@)
            },
            old(self).spec_is_forwarder() ==> {
                &&& final(self).tpu_mode == old(self).tpu_mode
                &&& r.forwarded@ == packets@
                &&& r.verified@ == Seq::<Packet>::empty()
                &&& r.entries@ == Seq::<crate::flow::Entry>::empty()
                &&& r.blobs@ == Seq::<crate::flow::Blob>::empty()
                &&& r.rotation is None
            },
    {
        let mode = self.tpu_mode;
        match mode {
            Some(TpuMode::Leader(s)) => {
                let mut s2 = s;
                let out = s2.flow.process(packets);
                self.tpu_mode = Some(TpuMode::Leader(s2));
                out
            }
            Some(TpuMode::Forwarder(_)) => {
                ProcessOutput {
                    verified: Vec::new(),
                    entries: Vec::new(),
                    blobs: Vec::new(),
                    forwarded: packets,
                    rotation: None,
                }
            }
            None => {
                proof {
                    assert(false);
                }
                ProcessOutput {
                    verified: Vec::new(),
                    entries: Vec::new(),
                    blobs: Vec::new(),
                    forwarded: packets,
                    rotation: None,
                }
            }
        }
    }
}

/// Mode exclusivity: the installed mode is a sum type, so a leader pipeline
/// and a forwarder pipeline are never installed together, and a pipeline is
/// installed exactly when one of the two modes is.
pub proof fn lemma_mode_exclusive(t: Tpu)
    ensures
        !(t.spec_is_leader() && t.spec_is_forwarder()),
        t.spec_installed() <==> (t.spec_is_leader() || t.spec_is_forwarder()),
{
}

/// Clean teardown accounting: in every valid orchestrator state, every stage
/// ever started is either live in the installed pipeline or has been joined;
/// once nothing is installed, the stop count equals the start count, so no
/// stage thread of any generation is leaked.
pub proof fn lemma_clean_teardown(t: Tpu)
    requires
        t.wf(),
    ensures
        t.stage_start_count == t.stage_stop_count + t.spec_live_stages(),
        t.tpu_mode is None ==> t.stage_start_count == t.stage_stop_count,
{
}

/// No cancellation bleed across generations: a mode transition turns the
/// signal vector `before` into `before` with the old current flag set and a
/// fresh flag appended; the fresh generation starts unset and no older
/// generation's flag is touched, so setting generation k's signal never
/// affects generation k+1's.
pub proof fn lemma_no_cancellation_bleed(before: Seq<bool>, after: Seq<bool>)
    requires
        before.len() >= 1,
        after == before.update(before.len() - 1, true).push(false),
    ensures
        !after.last(),
        after[before.len() - 1],
        forall|g: int| 0 <= g < before.len() - 1 ==> after[g] == before[g],
{
}


} // verus!

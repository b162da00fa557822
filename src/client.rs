//! The workload driver's decisions: start barrier, request dispatch, phase
//! transitions and completion tracking.
//!
//! The caller owns the timers and the transport. It reports each event (start
//! signal, release after the barrier, request tick, phase tick, server
//! message) and performs what the returned value asks for.

use vstd::prelude::*;
use crate::executor::{KvCommand, Operation};
use crate::kv::{decimal, decimal_string, ConsistencyLevel};
use crate::workload::{classify_tick, is_write_draw, WorkloadPhase};

verus! {

/// A request created at a request tick, ready to be sent.
#[derive(Clone, Debug)]
pub struct ScheduledRequest {
    pub request_id: u64,
    pub is_write: bool,
    pub command: KvCommand,
}

/// A message from the service to the driver.
#[derive(Clone, Debug)]
pub enum ServerMessage {
    /// Start the load at this wall-clock instant (milliseconds since the epoch).
    StartSignal(i64),
    /// A write completed.
    Write(u64),
    /// A read completed, with the value it found.
    Read(u64, Option<String>),
}

/// How long the driver waits, in milliseconds, to reach `target_ms` when the
/// clock reads `now_ms`: the remaining time, or zero once it has passed.
pub open spec fn sync_wait(target_ms: i64, now_ms: i64) -> int {
    if target_ms > now_ms {
        target_ms - now_ms
    } else {
        0
    }
}

/// The request the driver builds for id `id`: a write of the id's decimal text
/// under that same text with `Leader` consistency, or a read of that key with
/// the configured read consistency.
pub open spec fn request_matches(
    r: ScheduledRequest,
    id: u64,
    is_write: bool,
    read_level: ConsistencyLevel,
) -> bool {
    &&& r.request_id == id
    &&& r.is_write == is_write
    &&& if is_write {
        &&& r.command.consistency == ConsistencyLevel::Leader
        &&& r.command.op is Put
        &&& r.command.op->Put_key@ == decimal(id as nat)
        &&& r.command.op->Put_value@ == decimal(id as nat)
    } else {
        &&& r.command.consistency == read_level
        &&& r.command.op is Get
        &&& r.command.op->Get_key@ == decimal(id as nat)
    }
}

/// The driver's run state.
pub struct Client {
    phases: Vec<WorkloadPhase>,
    read_consistency: ConsistencyLevel,
    started: bool,
    phase: usize,
    final_request_count: Option<u64>,
    next_request_id: u64,
    responses_received: u64,
    sync_offset_ms: Option<i128>,
}

impl Client {
    pub closed spec fn phases_spec(&self) -> Seq<WorkloadPhase> {
        self.phases@
    }

    pub closed spec fn read_level(&self) -> ConsistencyLevel {
        self.read_consistency
    }

    /// Whether the start barrier has been released.
    pub closed spec fn is_started(&self) -> bool {
        self.started
    }

    /// Index of the active phase.
    pub closed spec fn phase_index(&self) -> nat {
        self.phase as nat
    }

    /// Set once, when the phases run out, to the number of requests issued.
    pub closed spec fn target(&self) -> Option<u64> {
        self.final_request_count
    }

    /// Number of requests issued so far; also the next request id.
    pub closed spec fn issued(&self) -> nat {
        self.next_request_id as nat
    }

    pub closed spec fn received(&self) -> nat {
        self.responses_received as nat
    }

    pub closed spec fn sync_offset_spec(&self) -> Option<i128> {
        self.sync_offset_ms
    }

    /// The ids of the requests issued so far, in order of issue.
    pub open spec fn issued_ids(&self) -> Seq<u64> {
        Seq::new(self.issued(), |i: int| i as u64)
    }

    /// The run is over: the phases ran out and every issued request was answered.
    pub open spec fn finished(&self) -> bool {
        self.target() is Some && self.received() >= self.target()->Some_0 as nat
    }

    pub closed spec fn wf(&self) -> bool {
        &&& self.phase as nat <= self.phases@.len()
        &&& self.started && self.final_request_count is None ==> self.phase < self.phases@.len()
        &&& self.final_request_count is Some ==> self.final_request_count->Some_0 == self.next_request_id
        &&& self.final_request_count is Some ==> self.started
        &&& !self.started ==> self.next_request_id == 0
    }

    /// The two states share their phases and read consistency.
    pub open spec fn same_config(&self, other: &Client) -> bool {
        self.phases_spec() == other.phases_spec() && self.read_level() == other.read_level()
    }

    /// A driver that reads with `read_consistency` and runs `phases` in order.
    pub fn new(phases: Vec<WorkloadPhase>, read_consistency: ConsistencyLevel) -> (r: Client)
        ensures
            r.wf(),
            r.phases_spec() == phases@,
            r.read_level() == read_consistency,
            !r.is_started(),
            r.target() is None,
            r.issued() == 0,
            r.received() == 0,
            r.sync_offset_spec() is None,
    {
        Client {
            phases,
            read_consistency,
            started: false,
            phase: 0,
            final_request_count: None,
            next_request_id: 0,
            responses_received: 0,
            sync_offset_ms: None,
        }
    }
}

impl Client {
    /// Handles the start signal: records the offset `target_ms - now_ms` and
    /// returns how long to wait before releasing the barrier (zero when the
    /// instant has already passed, which the offset then shows).
    pub fn on_start_signal(&mut self, target_ms: i64, now_ms: i64) -> (r: u64)
        requires
            old(self).wf(),
        ensures
            final(self).wf(),
            r == sync_wait(target_ms, now_ms),
            final(self).sync_offset_spec() == Some((target_ms - now_ms) as i128),
            final(self).same_config(old(self)),
            final(self).is_started() == old(self).is_started(),
            final(self).phase_index() == old(self).phase_index(),
            final(self).target() == old(self).target(),
            final(self).issued() == old(self).issued(),
            final(self).received() == old(self).received(),
    {
        let offset: i128 = target_ms as i128 - now_ms as i128;
        self.sync_offset_ms = Some(offset);
        if offset > 0 {
            offset as u64
        } else {
            0
        }
    }

    /// Releases the start barrier and returns the first phase, whose timers
    /// the caller arms. With no phases the run has nothing to issue: the
    /// target is set to zero at once and `None` comes back. A second call
    /// changes nothing and returns `None`.
    pub fn release(&mut self) -> (r: Option<WorkloadPhase>)
        requires
            old(self).wf(),
        ensures
            final(self).wf(),
            final(self).same_config(old(self)),
            final(self).is_started(),
            final(self).issued() == old(self).issued(),
            final(self).received() == old(self).received(),
            final(self).sync_offset_spec() == old(self).sync_offset_spec(),
            old(self).target() is Some ==> final(self).target() == old(self).target(),
            old(self).is_started() ==> r is None && *final(self) == *old(self),
            !old(self).is_started() ==> {
                &&& final(self).phase_index() == 0
                &&& old(self).phases_spec().len() == 0 ==> r is None && final(self).target() == Some(0u64)
                &&& old(self).phases_spec().len() > 0 ==> r == Some(old(self).phases_spec()[0])
                    && final(self).target() is None
            },
    {
        if self.started {
            return None;
        }
        self.started = true;
        self.phase = 0;
        if self.phases.len() == 0 {
            self.final_request_count = Some(self.next_request_id);
            None
        } else {
            Some(self.phases[0])
        }
    }

    /// Handles a request-timer tick with uniform sample `sample`.
    ///
    /// A request is issued iff the barrier is released, the phases have not
    /// run out and ids remain. It takes the next id; it is a write iff the
    /// sample is not below the active phase's read share. Otherwise the state
    /// is unchanged.
    pub fn on_request_tick(&mut self, sample: u64) -> (r: Option<ScheduledRequest>)
        requires
            old(self).wf(),
        ensures
            final(self).wf(),
            r is Some <==> (old(self).is_started() && old(self).target() is None && old(self).issued()
                < u64::MAX),
            r is None ==> *final(self) == *old(self),
            r is Some ==> {
                &&& request_matches(
                    r->Some_0,
                    old(self).issued() as u64,
                    is_write_draw(
                        sample,
                        old(self).phases_spec()[old(self).phase_index() as int].read_ratio_spec(),
                    ),
                    old(self).read_level(),
                )
                &&& final(self).issued() == old(self).issued() + 1
                &&& final(self).issued_ids() == old(self).issued_ids().push(r->Some_0.request_id)
                &&& final(self).same_config(old(self))
                &&& final(self).is_started() == old(self).is_started()
                &&& final(self).phase_index() == old(self).phase_index()
                &&& final(self).target() == old(self).target()
                &&& final(self).received() == old(self).received()
                &&& final(self).sync_offset_spec() == old(self).sync_offset_spec()
            },
    {
        if !self.started || self.final_request_count.is_some() || self.next_request_id == u64::MAX {
            return None;
        }
        let id = self.next_request_id;
        let is_write = classify_tick(sample, self.phases[self.phase].get_read_ratio());
        let key = decimal_string(id);
        let command = if is_write {
            let value = decimal_string(id);
            KvCommand { op: Operation::Put { key, value }, consistency: ConsistencyLevel::Leader }
        } else {
            KvCommand { op: Operation::Get { key }, consistency: self.read_consistency }
        };
        self.next_request_id = id + 1;
        proof {
            assert(self.issued_ids() =~= old(self).issued_ids().push(id));
        }
        Some(ScheduledRequest { request_id: id, is_write, command })
    }

    /// Handles a phase-timer tick. While phases remain, advances to the next
    /// and returns it for the caller to re-arm both timers. When none remains,
    /// sets the target to the number of requests issued and returns `None`;
    /// from then on no request is issued. Before the barrier is released, and
    /// once the target is set, the state is unchanged.
    pub fn on_phase_tick(&mut self) -> (r: Option<WorkloadPhase>)
        requires
            old(self).wf(),
        ensures
            final(self).wf(),
            final(self).same_config(old(self)),
            final(self).is_started() == old(self).is_started(),
            final(self).issued() == old(self).issued(),
            final(self).received() == old(self).received(),
            final(self).sync_offset_spec() == old(self).sync_offset_spec(),
            !old(self).is_started() || old(self).target() is Some ==> r is None && *final(self)
                == *old(self),
            old(self).is_started() && old(self).target() is None ==> {
                if old(self).phase_index() + 1 < old(self).phases_spec().len() {
                    &&& final(self).phase_index() == old(self).phase_index() + 1
                    &&& r == Some(old(self).phases_spec()[old(self).phase_index() + 1int])
                    &&& final(self).target() is None
                } else {
                    &&& r is None
                    &&& final(self).phase_index() == old(self).phase_index()
                    &&& final(self).target() == Some(old(self).issued() as u64)
                }
            },
    {
        if !self.started || self.final_request_count.is_some() {
            return None;
        }
        if self.phase < self.phases.len() - 1 {
            self.phase = self.phase + 1;
            Some(self.phases[self.phase])
        } else {
            self.final_request_count = Some(self.next_request_id);
            None
        }
    }

    /// Records a message from the service: each completion counts as one
    /// response (the count stops at `u64::MAX`); a start signal counts for
    /// nothing.
    pub fn handle_server_message(&mut self, msg: &ServerMessage)
        requires
            old(self).wf(),
        ensures
            final(self).wf(),
            final(self).same_config(old(self)),
            final(self).is_started() == old(self).is_started(),
            final(self).phase_index() == old(self).phase_index(),
            final(self).target() == old(self).target(),
            final(self).issued() == old(self).issued(),
            final(self).sync_offset_spec() == old(self).sync_offset_spec(),
            final(self).received() == if msg is StartSignal || old(self).received() == u64::MAX {
                old(self).received()
            } else {
                old(self).received() + 1
            },
    {
        match msg {
            ServerMessage::StartSignal(_) => {},
            _ => {
                if self.responses_received < u64::MAX {
                    self.responses_received = self.responses_received + 1;
                }
            },
        }
    }

    /// True iff the target is set and that many responses have arrived.
    pub fn run_finished(&self) -> (r: bool)
        ensures
            r == self.finished(),
    {
        match self.final_request_count {
            Some(count) => self.responses_received >= count,
            None => false,
        }
    }

    pub fn request_count(&self) -> (r: u64)
        ensures
            r == self.issued(),
    {
        self.next_request_id
    }

    pub fn response_count(&self) -> (r: u64)
        ensures
            r == self.received(),
    {
        self.responses_received
    }

    pub fn final_request_count(&self) -> (r: Option<u64>)
        ensures
            r == self.target(),
    {
        self.final_request_count
    }

    pub fn sync_offset(&self) -> (r: Option<i128>)
        ensures
            r == self.sync_offset_spec(),
    {
        self.sync_offset_ms
    }

    pub fn current_phase(&self) -> (r: Option<WorkloadPhase>)
        requires
            self.wf(),
        ensures
            r is Some <==> self.phase_index() < self.phases_spec().len(),
            r is Some ==> r->Some_0 == self.phases_spec()[self.phase_index() as int],
    {
        if self.phase < self.phases.len() {
            Some(self.phases[self.phase])
        } else {
            None
        }
    }
}

/// The ids issued in a run are strictly increasing, hence never repeated.
pub proof fn lemma_issued_ids_increase(c: &Client, i: int, j: int)
    requires
        0 <= i < j < c.issued_ids().len(),
    ensures
        c.issued_ids()[i] < c.issued_ids()[j],
{
}

} // verus!

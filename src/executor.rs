//! How the service executes an operation under each consistency level.
//!
//! The decision is a pure function of the operation's level and the
//! replica's status; the caller runs the store statement, waits on the
//! replication layer where the plan says so, and hands the store's outcome
//! back to be turned into the operation's result.

use vstd::prelude::*;
use crate::kv::ConsistencyLevel;

verus! {

/// What an operation does to the keyed table.
#[derive(Clone, Debug)]
pub enum Operation {
    /// Upsert `value` under `key`.
    Put { key: String, value: String },
    /// Point lookup of `key`.
    Get { key: String },
}

/// An operation together with the guarantee its caller asked for.
#[derive(Clone, Debug)]
pub struct KvCommand {
    pub op: Operation,
    pub consistency: ConsistencyLevel,
}

impl Operation {
    pub open spec fn is_write(&self) -> bool {
        self is Put
    }

    pub open spec fn key_view(&self) -> Seq<char> {
        match self {
            Operation::Put { key, .. } => key@,
            Operation::Get { key } => key@,
        }
    }
}

/// What the replication layer reports about this node.
#[derive(Clone, Copy, Debug, PartialEq, Eq, Structural)]
pub struct ReplicaStatus {
    /// Whether this node currently leads the replication group.
    pub is_leader: bool,
    /// Log position up to which operations are committed.
    pub commit_index: u64,
    /// Log position up to which the local store has applied committed operations.
    pub applied_index: u64,
}

/// Why an operation produced no result.
#[derive(Clone, Copy, Debug, PartialEq, Eq, Structural)]
pub enum ExecError {
    /// A leader-routed operation reached a node that is not the leader.
    NotLeader,
    /// The store refused the write.
    WriteFailed,
    /// The store failed to answer the lookup.
    ReadFailed,
}

/// The next step for an operation.
#[derive(Clone, Copy, Debug, PartialEq, Eq, Structural)]
pub enum Plan {
    /// Run the store statement now.
    Execute,
    /// Suspend until the local store has applied the log up to this index.
    AwaitApplied(u64),
    /// Do not run the statement; answer with this error.
    Reject(ExecError),
}

/// The step owed to an operation of `level` on a replica in `status`, where
/// `barrier` is the commit index recorded when the operation arrived.
pub open spec fn plan_of(level: ConsistencyLevel, status: ReplicaStatus, barrier: u64) -> Plan {
    match level {
        ConsistencyLevel::Local => Plan::Execute,
        ConsistencyLevel::Leader => if status.is_leader {
            Plan::Execute
        } else {
            Plan::Reject(ExecError::NotLeader)
        },
        ConsistencyLevel::Linearizable => if status.applied_index >= barrier {
            Plan::Execute
        } else {
            Plan::AwaitApplied(barrier)
        },
    }
}

/// The barrier a newly arrived operation waits on: the commit index at arrival.
pub fn arrival_barrier(status: ReplicaStatus) -> (r: u64)
    ensures
        r == status.commit_index,
{
    status.commit_index
}

/// Decides the next step for an operation of `level`.
///
/// `Local` always executes. `Leader` executes only on the leader and is
/// rejected elsewhere. `Linearizable` executes once the applied index has
/// reached `barrier`, and until then waits for it.
pub fn plan_command(level: ConsistencyLevel, status: ReplicaStatus, barrier: u64) -> (r: Plan)
    ensures
        r == plan_of(level, status, barrier),
{
    match level {
        ConsistencyLevel::Local => Plan::Execute,
        ConsistencyLevel::Leader => {
            if status.is_leader {
                Plan::Execute
            } else {
                Plan::Reject(ExecError::NotLeader)
            }
        },
        ConsistencyLevel::Linearizable => {
            if status.applied_index >= barrier {
                Plan::Execute
            } else {
                Plan::AwaitApplied(barrier)
            }
        },
    }
}

/// What the store reported for a statement.
#[derive(Clone, Debug)]
pub enum StoreOutcome {
    /// The upsert was applied.
    Written,
    /// The upsert failed.
    WriteFailed,
    /// The lookup found this value.
    Row(String),
    /// The lookup found no row for the key.
    NoRow,
    /// The lookup failed.
    ReadFailed,
}

/// The result owed for a store outcome: `Ok(None)` for a write,
/// `Ok(Some(None))` for a lookup without a row, `Ok(Some(Some(v)))` for a
/// lookup that found `v`; store failures stay distinct from a missing row.
pub open spec fn result_of(out: StoreOutcome) -> Result<Option<Option<String>>, ExecError> {
    match out {
        StoreOutcome::Written => Ok(None),
        StoreOutcome::WriteFailed => Err(ExecError::WriteFailed),
        StoreOutcome::Row(v) => Ok(Some(Some(v))),
        StoreOutcome::NoRow => Ok(Some(None)),
        StoreOutcome::ReadFailed => Err(ExecError::ReadFailed),
    }
}

/// Turns the store's outcome into the operation's result.
pub fn command_result(out: StoreOutcome) -> (r: Result<Option<Option<String>>, ExecError>)
    ensures
        r == result_of(out),
{
    match out {
        StoreOutcome::Written => Ok(None),
        StoreOutcome::WriteFailed => Err(ExecError::WriteFailed),
        StoreOutcome::Row(v) => Ok(Some(Some(v))),
        StoreOutcome::NoRow => Ok(Some(None)),
        StoreOutcome::ReadFailed => Err(ExecError::ReadFailed),
    }
}

/// A parameterised statement for the backing store.
#[derive(Clone, Debug)]
pub struct StoreRequest {
    /// Statement text, with `$1`, `$2`, ... standing for the binds.
    pub statement: String,
    /// Values bound to the placeholders, in order.
    pub binds: Vec<String>,
}

pub open spec fn schema_text() -> Seq<char> {
    "CREATE TABLE IF NOT EXISTS kv_table (key TEXT PRIMARY KEY, value TEXT);"@
}

pub open spec fn upsert_text() -> Seq<char> {
    "INSERT INTO kv_table(key, value) VALUES ($1, $2) ON CONFLICT(key) DO UPDATE SET value = EXCLUDED.value;"@
}

pub open spec fn lookup_text() -> Seq<char> {
    "SELECT value FROM kv_table WHERE key = $1;"@
}

/// The statement that creates the keyed table when it is missing.
pub fn schema_statement() -> (r: String)
    ensures
        r@ == schema_text(),
{
    String::from_str("CREATE TABLE IF NOT EXISTS kv_table (key TEXT PRIMARY KEY, value TEXT);")
}

/// The store statement for an operation: an upsert binding key then value,
/// or a lookup binding the key. Keys and values travel only as binds.
pub fn store_request(op: &Operation) -> (r: StoreRequest)
    ensures
        match op {
            Operation::Put { key, value } => r.statement@ == upsert_text() && r.binds@.len() == 2
                && r.binds@[0]@ == key@ && r.binds@[1]@ == value@,
            Operation::Get { key } => r.statement@ == lookup_text() && r.binds@.len() == 1
                && r.binds@[0]@ == key@,
        },
{
    match op {
        Operation::Put { key, value } => {
            let mut binds: Vec<String> = Vec::new();
            binds.push(key.clone());
            binds.push(value.clone());
            StoreRequest {
                statement: String::from_str(
                    "INSERT INTO kv_table(key, value) VALUES ($1, $2) ON CONFLICT(key) DO UPDATE SET value = EXCLUDED.value;",
                ),
                binds,
            }
        },
        Operation::Get { key } => {
            let mut binds: Vec<String> = Vec::new();
            binds.push(key.clone());
            StoreRequest {
                statement: String::from_str("SELECT value FROM kv_table WHERE key = $1;"),
                binds,
            }
        },
    }
}

/// The keyed table after `op` has been applied to `t`.
pub open spec fn table_after(t: Map<Seq<char>, Seq<char>>, op: Operation) -> Map<Seq<char>, Seq<char>> {
    match op {
        Operation::Put { key, value } => t.insert(key@, value@),
        Operation::Get { .. } => t,
    }
}

/// `out` is what a store holding `t` correctly reports for `op`.
pub open spec fn faithful_outcome(t: Map<Seq<char>, Seq<char>>, op: Operation, out: StoreOutcome) -> bool {
    match op {
        Operation::Put { .. } => out is Written,
        Operation::Get { key } => if t.contains_key(key@) {
            out is Row && out->Row_0@ == t[key@]
        } else {
            out is NoRow
        },
    }
}

/// A write of `value` under `key`, followed by a lookup of the same key
/// against the table the write produced, yields exactly the written value.
pub proof fn lemma_write_then_read(
    t: Map<Seq<char>, Seq<char>>,
    key: String,
    value: String,
    read_key: String,
    out: StoreOutcome,
)
    requires
        read_key@ == key@,
        faithful_outcome(
            table_after(t, Operation::Put { key, value }),
            Operation::Get { key: read_key },
            out,
        ),
    ensures
        result_of(out) is Ok,
        result_of(out)->Ok_0 is Some,
        result_of(out)->Ok_0->Some_0 is Some,
        result_of(out)->Ok_0->Some_0->Some_0@ == value@,
{
}

/// A linearizable read that arrived after a write at `write_index` was
/// acknowledged (so committed) executes only once the local store has
/// applied that write; until then it waits on the arrival barrier.
pub proof fn lemma_linearizable_read_sees_acknowledged_write(
    write_index: u64,
    arrival: ReplicaStatus,
    now: ReplicaStatus,
)
    requires
        write_index <= arrival.commit_index,
    ensures
        plan_of(ConsistencyLevel::Linearizable, now, arrival.commit_index) == Plan::Execute
            ==> now.applied_index >= write_index,
        plan_of(ConsistencyLevel::Linearizable, now, arrival.commit_index) != Plan::Execute
            ==> plan_of(ConsistencyLevel::Linearizable, now, arrival.commit_index)
            == Plan::AwaitApplied(arrival.commit_index),
{
}

} // verus!

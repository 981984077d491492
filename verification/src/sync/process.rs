//! The server's side of a sync.

use crate::db::backend::tasks_view;
use crate::db::backend::DBBackend;
use crate::db::model::adds_of;
use crate::db::model::msgs_to;
use crate::db::model::ops_of;
use crate::db::model::DbError;
use crate::db::model::StoreView;
use crate::db::store::replicas_view;
use crate::db::transaction::DBTransaction;
use crate::ident::ReplicaUuid;
use crate::sync::apply_all_uset_ops;
use crate::sync::msgs_view;
use crate::sync::ops_view;
use crate::sync::USetOp;
use crate::sync::USetOpMsg;
use vstd::prelude::*;
use vstd::string::StringExecFns;

verus! {

/// The step of a sync or a clear at which the store refused.
#[derive(Debug, Clone, Copy, PartialEq, Eq, Structural)]
pub enum SyncStep {
    /// Reading the replica registry.
    FetchReplicas,
    /// Reading what waits for the replica.
    FetchMessages,
    /// Registering the replica.
    StoreReplica,
    /// Reading the tasks to send to a new replica.
    FetchTasks,
    /// Queueing an operation for a replica.
    StoreMessage,
    /// Applying the operations that the replica brought.
    ApplyOperations,
    /// Dropping what waits for the replica.
    ClearMessages,
    /// Committing the transaction.
    Commit,
}

/// A failed sync or clear: what was being done, for which replica, and why the store refused.
#[derive(Debug, Clone, Copy, PartialEq, Eq, Structural)]
pub struct SyncError {
    pub step: SyncStep,
    pub replica: ReplicaUuid,
    pub cause: DbError,
}

impl SyncStep {
    /// How the message of a failure at this step begins, up to the replica.
    pub open spec fn message_head(self) -> Seq<char> {
        match self {
            SyncStep::FetchReplicas => "Failed to fetch replicas while processing incoming sync for client "@,
            SyncStep::FetchMessages => "Failed to fetch uset op messages while processing incoming sync for client "@,
            SyncStep::StoreReplica => "Failed to store new client replica "@,
            SyncStep::FetchTasks => "Failed to fetch all tasks while processing incoming sync for new client "@,
            SyncStep::StoreMessage => "Failed to store uset op message while processing incoming sync from client "@,
            SyncStep::ApplyOperations => "Failed to apply incoming operations from client "@,
            SyncStep::ClearMessages => "Error processing clear with replica "@,
            SyncStep::Commit => "Error committing transaction for replica "@,
        }
    }

    /// How the message of a failure at this step begins, up to the replica.
    pub fn message_head_str(&self) -> (head: &'static str)
        ensures
            head@ == self.message_head(),
    {
        match self {
            SyncStep::FetchReplicas => "Failed to fetch replicas while processing incoming sync for client ",
            SyncStep::FetchMessages => "Failed to fetch uset op messages while processing incoming sync for client ",
            SyncStep::StoreReplica => "Failed to store new client replica ",
            SyncStep::FetchTasks => "Failed to fetch all tasks while processing incoming sync for new client ",
            SyncStep::StoreMessage => "Failed to store uset op message while processing incoming sync from client ",
            SyncStep::ApplyOperations => "Failed to apply incoming operations from client ",
            SyncStep::ClearMessages => "Error processing clear with replica ",
            SyncStep::Commit => "Error committing transaction for replica ",
        }
    }
}

impl SyncError {
    /// The message that describes the error: what was being done, for which replica, and
    /// why the store refused.
    pub open spec fn message(self) -> Seq<char> {
        self.step.message_head() + self.replica.text() + ": "@ + self.cause.message()
    }

    /// The message that describes the error.
    pub fn to_string(&self) -> (message: String)
        ensures
            message@ == self.message(),
    {
        let mut message = String::from_str(self.step.message_head_str());
        message.append(self.replica.to_string().as_str());
        message.append(": ");
        message.append(self.cause.to_string().as_str());
        message
    }
}

/// Queues `ops` for `deliver_to`, in order.
fn store_all_for<T: DBBackend>(tx: &mut T, ops: &[USetOp], deliver_to: ReplicaUuid) -> (r: Result<(), DbError>)
    ensures
        final(tx).committed() == old(tx).committed(),
        old(tx).state().wf() ==> final(tx).state().wf(),
        r is Ok,
        final(tx).state() == old(tx).state().with_msgs(msgs_to(ops_view(ops@), deliver_to)),
{
    let ghost before = tx.state();
    let ghost msgs = msgs_to(ops_view(ops@), deliver_to);
    let mut i: usize = 0;
    while i < ops.len()
        invariant
            i <= ops@.len(),
            before == old(tx).state(),
            msgs == msgs_to(ops_view(ops@), deliver_to),
            tx.committed() == old(tx).committed(),
            before.wf() ==> tx.state().wf(),
            tx.state() == before.with_msgs(msgs.take(i as int)),
        decreases ops.len() - i,
    {
        let msg = USetOpMsg { op: ops[i].clone(), deliver_to };
        match tx.store_uset_op_msg(&msg) {
            Ok(()) => {},
            Err(e) => {
                return Err(e);
            },
        }
        assert(before.outbox + msgs.take(i as int + 1) =~= (before.outbox + msgs.take(i as int)).push(
            msgs[i as int],
        ));
        i += 1;
    }
    assert(msgs.take(i as int) =~= msgs);
    Ok(())
}

/// Processes an incoming sync.
///
/// A replica that is not registered yet is registered as a client; every task of the store
/// is turned into an add, in the store's order, and these adds are both queued for the
/// replica and returned. A registered replica is returned what waits for it; the queue is
/// left as it is until the replica clears it.
///
/// After that the operations that the replica brought are applied to the store, and queued
/// for every other replica that was registered before this sync. If one of them cannot be
/// applied the sync fails, and the transaction is to be rolled back.
pub fn process_sync<T: DBBackend>(tx: &mut T, incoming_replica: ReplicaUuid, incoming_ops: &[USetOp]) -> (r: Result<Vec<USetOp>, SyncError>)
    ensures
        final(tx).committed() == old(tx).committed(),
        final(tx).state().wf(),
        match old(tx).state().synced(incoming_replica, ops_view(incoming_ops@)) {
            Ok(store) => {
                &&& final(tx).state() == store
                &&& r matches Ok(results)
                &&& ops_view(results@) == old(tx).state().sync_response(incoming_replica)
            },
            Err(e) => {
                &&& r == Err::<Vec<USetOp>, SyncError>(
                    SyncError { step: SyncStep::ApplyOperations, replica: incoming_replica, cause: e },
                )
                &&& old(tx).state().sync_prepared(incoming_replica).fails_at(
                    ops_view(incoming_ops@),
                    final(tx).state(),
                )
            },
        },
{
    let ghost before = tx.state();
    let ghost incoming = ops_view(incoming_ops@);
    let replicas = match tx.fetch_replicas() {
        Ok(replicas) => replicas,
        Err(e) => {
            return Err(SyncError { step: SyncStep::FetchReplicas, replica: incoming_replica, cause: e });
        },
    };
    let mut known = false;
    let mut n: usize = 0;
    while n < replicas.len()
        invariant
            n <= replicas.len(),
            before.replicas == replicas_view(replicas@),
            known <==> exists|j: int| 0 <= j < n && (#[trigger] before.replicas[j]).uuid == incoming_replica,
        decreases replicas.len() - n,
    {
        if replicas[n].0 == incoming_replica {
            assert(before.replicas[n as int].uuid == incoming_replica);
            known = true;
        }
        n += 1;
    }
    let mut results: Vec<USetOp> = Vec::new();
    if known {
        let messages = match tx.fetch_uset_op_msgs(&incoming_replica) {
            Ok(messages) => messages,
            Err(e) => {
                return Err(SyncError { step: SyncStep::FetchMessages, replica: incoming_replica, cause: e });
            },
        };
        let ghost waiting = ops_of(msgs_view(messages@));
        let mut i: usize = 0;
        while i < messages.len()
            invariant
                i <= messages.len(),
                waiting == ops_of(msgs_view(messages@)),
                ops_view(results@) == waiting.take(i as int),
            decreases messages.len() - i,
        {
            let ghost held = ops_view(results@);
            results.push(messages[i].op.clone());
            assert(ops_view(results@) =~= held.push(waiting[i as int]));
            i += 1;
        }
    } else {
        match tx.store_replica_client(&incoming_replica) {
            Ok(()) => {},
            Err(e) => {
                return Err(SyncError { step: SyncStep::StoreReplica, replica: incoming_replica, cause: e });
            },
        }
        let tasks = match tx.fetch_all_tasks() {
            Ok(tasks) => tasks,
            Err(e) => {
                return Err(SyncError { step: SyncStep::FetchTasks, replica: incoming_replica, cause: e });
            },
        };
        let ghost export = adds_of(tasks_view(tasks@));
        let mut i: usize = 0;
        while i < tasks.len()
            invariant
                i <= tasks.len(),
                export == adds_of(tasks_view(tasks@)),
                ops_view(results@) == export.take(i as int),
            decreases tasks.len() - i,
        {
            let ghost held = ops_view(results@);
            results.push(USetOp::Add(tasks[i].clone()));
            assert(ops_view(results@) =~= held.push(export[i as int]));
            i += 1;
        }
        assert(export.take(i as int) =~= export);
        match store_all_for(tx, results.as_slice(), incoming_replica) {
            Ok(()) => {},
            Err(e) => {
                return Err(SyncError { step: SyncStep::StoreMessage, replica: incoming_replica, cause: e });
            },
        }
    }
    // The operations are applied after the response has been put together.
    match apply_all_uset_ops(tx, incoming_ops) {
        Ok(_) => {},
        Err(e) => {
            return Err(SyncError { step: SyncStep::ApplyOperations, replica: incoming_replica, cause: e });
        },
    }
    let ghost applied = tx.state();
    let mut k: usize = 0;
    while k < replicas.len()
        invariant
            k <= replicas.len(),
            incoming == ops_view(incoming_ops@),
            before.replicas == replicas_view(replicas@),
            tx.committed() == old(tx).committed(),
            tx.state().wf(),
            tx.state() == applied.fanned_out(before.replicas.take(k as int), incoming_replica, incoming),
        decreases replicas.len() - k,
    {
        proof {
            assert(before.replicas.take(k as int + 1).drop_last() =~= before.replicas.take(k as int));
        }
        if replicas[k].0 != incoming_replica {
            match store_all_for(tx, incoming_ops, replicas[k].0) {
                Ok(()) => {},
                Err(e) => {
                    return Err(SyncError { step: SyncStep::StoreMessage, replica: incoming_replica, cause: e });
                },
            }
        }
        k += 1;
    }
    assert(before.replicas.take(k as int) =~= before.replicas);
    Ok(results)
}

/// Processes an incoming clear: drops every operation that waits for the replica. The
/// tasks are not touched.
///
/// Nothing records which operations a replica has received. If other replicas sync between
/// a replica's sync and its clear, what they queued for it in between is dropped as well.
pub fn process_clear<T: DBBackend>(tx: &mut T, incoming_replica: ReplicaUuid) -> (r: Result<(), SyncError>)
    ensures
        final(tx).committed() == old(tx).committed(),
        final(tx).state().wf(),
        r is Ok,
        final(tx).state() == old(tx).state().without_messages_for(incoming_replica),
{
    match tx.clear_uset_op_msgs(&incoming_replica) {
        Ok(()) => Ok(()),
        Err(e) => Err(SyncError { step: SyncStep::ClearMessages, replica: incoming_replica, cause: e }),
    }
}

} // verus!

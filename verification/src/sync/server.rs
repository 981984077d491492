//! What the relay does with a request: one transaction for each.

use crate::db::backend::DBBackend;
use crate::db::memory::MemoryBackend;
use crate::db::model::DbError;
use crate::db::model::StoreView;
use crate::db::transaction::DBTransaction;
use crate::ident::ReplicaUuid;
use crate::sync::ops_view;
use crate::sync::process::process_clear;
use crate::sync::process::process_sync;
use crate::sync::process::SyncError;
use crate::sync::process::SyncStep;
use crate::sync::USetOp;
use vstd::prelude::*;

verus! {

/// Handles a sync request of `replica_id` in a transaction of its own: applies the
/// operations that the replica brought and returns those that wait for it, see
/// [`process_sync`]. The sync is all or nothing: if an operation cannot be applied, the
/// store is left as it was.
pub fn handle_sync_route(db: &mut MemoryBackend, replica_id: ReplicaUuid, incoming_ops: &[USetOp]) -> (r: Result<Vec<USetOp>, SyncError>)
    ensures
        match old(db)@.synced(replica_id, ops_view(incoming_ops@)) {
            Ok(store) => {
                &&& final(db)@ == store
                &&& r matches Ok(results)
                &&& ops_view(results@) == old(db)@.sync_response(replica_id)
            },
            Err(e) => {
                &&& final(db)@ == old(db)@
                &&& r == Err::<Vec<USetOp>, SyncError>(
                    SyncError { step: SyncStep::ApplyOperations, replica: replica_id, cause: e },
                )
            },
        },
{
    let tx = db.transaction();
    match process_sync(tx, replica_id, incoming_ops) {
        Ok(results) => {
            match tx.finish() {
                Ok(()) => Ok(results),
                Err(e) => Err(SyncError { step: SyncStep::Commit, replica: replica_id, cause: e }),
            }
        },
        Err(e) => Err(e),
    }
}

/// Handles a clear request of `replica_id` in a transaction of its own: drops what waits
/// for the replica. A replica calls this once it has received the response to a sync.
pub fn handle_clear_route(db: &mut MemoryBackend, replica_id: ReplicaUuid) -> (r: Result<(), SyncError>)
    ensures
        r is Ok,
        final(db)@ == old(db)@.without_messages_for(replica_id),
{
    let tx = db.transaction();
    match process_clear(tx, replica_id) {
        Ok(()) => {
            match tx.finish() {
                Ok(()) => Ok(()),
                Err(e) => Err(SyncError { step: SyncStep::Commit, replica: replica_id, cause: e }),
            }
        },
        Err(e) => Err(e),
    }
}

} // verus!

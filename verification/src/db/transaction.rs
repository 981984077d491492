//! The primitive operations of a transaction.

use crate::db::model::DbError;
use crate::db::model::RowView;
use crate::db::model::StoreView;
use crate::db::store::rows_view;
use crate::db::store::servers_view;
use crate::db::store::RowId;
use crate::ident::ReplicaUuid;
use crate::ident::Uuid;
use crate::ident::UuidError;
use crate::task::Task;
use vstd::prelude::*;

verus! {

/// An identifier as the store keeps it: a blob of sixteen bytes.
#[derive(Debug, Clone, Copy, PartialEq, Eq, Structural)]
pub struct SqlBlobUuid {
    pub uuid: Uuid,
}

impl SqlBlobUuid {
    /// Reads an identifier from a blob, which must hold exactly sixteen bytes.
    pub fn column_result(blob: &[u8]) -> (r: Result<SqlBlobUuid, UuidError>)
        ensures
            blob@.len() == 16 ==> r == Ok::<SqlBlobUuid, UuidError>(
                SqlBlobUuid { uuid: Uuid::spec_from_bytes(blob@) },
            ),
            blob@.len() != 16 ==> r == Err::<SqlBlobUuid, UuidError>(UuidError::InvalidLength(blob.len())),
    {
        match Uuid::from_slice(blob) {
            Ok(uuid) => Ok(SqlBlobUuid { uuid }),
            Err(e) => Err(e),
        }
    }

    /// The blob that holds the identifier.
    pub fn to_blob(&self) -> (blob: [u8; 16])
        ensures
            blob@ == self.uuid.bytes(),
            Uuid::spec_from_bytes(blob@) == self.uuid,
    {
        proof {
            self.uuid.lemma_bytes_round_trip();
        }
        self.uuid.as_bytes()
    }
}

/// The row that a handle and a task stand for.
pub open spec fn row_view(row: (RowId, Task)) -> RowView {
    RowView { id: row.0@, task: row.1@ }
}

/// What an optional handle and task stand for.
pub open spec fn optional_row_view(row: Option<(RowId, Task)>) -> Option<RowView> {
    match row {
        Some(row) => Some(row_view(row)),
        None => None,
    }
}

/// A transaction on the store. Whatever it changes stays provisional until it is committed:
/// a transaction that is rolled back, or given up without a commit, leaves the store as it
/// was at the last commit.
pub trait DBTransaction {
    /// What the store holds as this transaction sees it.
    spec fn state(&self) -> StoreView;

    /// What the store held at the last commit.
    spec fn committed(&self) -> StoreView;

    /// The ordinary tasks, by ascending priority, those of equal priority in the order in
    /// which they were added.
    fn fetch_tasks(&self) -> (r: Result<Vec<(RowId, Task)>, DbError>)
        ensures
            self.state().wf(),
            r matches Ok(rows) && rows_view(rows@) == self.state().rows_in(false),
    ;

    /// The breaks, by ascending priority, those of equal priority in the order in which
    /// they were added.
    fn fetch_breaks(&self) -> (r: Result<Vec<(RowId, Task)>, DbError>)
        ensures
            self.state().wf(),
            r matches Ok(rows) && rows_view(rows@) == self.state().rows_in(true),
    ;

    /// Makes the row `id` the current task. Fails with [`DbError::ForeignKey`] if there is
    /// no such row.
    fn set_current_task(&mut self, id: &RowId) -> (r: Result<(), DbError>)
        ensures
            final(self).committed() == old(self).committed(),
            final(self).state().wf(),
            old(self).state().has_row(id@) ==> r is Ok && final(self).state() == old(
                self,
            ).state().with_current(Some(id@)),
            !old(self).state().has_row(id@) ==> r == Err::<(), DbError>(DbError::ForeignKey)
                && final(self).state() == old(self).state(),
    ;

    /// Returns the current task with its handle and empties the current pointer. The task
    /// stays in the store. Whoever calls this sets the pointer anew before the transaction
    /// ends, if tasks remain.
    fn pop_current_task(&mut self) -> (r: Result<Option<(RowId, Task)>, DbError>)
        ensures
            final(self).committed() == old(self).committed(),
            final(self).state().wf(),
            final(self).state() == old(self).state().with_current(None),
            r matches Ok(popped) && optional_row_view(popped) == old(self).state().current_row(),
    ;

    /// Removes the row `id`. Fails with [`DbError::NoSuchRow`] if there is no such row and
    /// with [`DbError::ForeignKey`] if it is the current task.
    fn remove_task(&mut self, id: &RowId) -> (r: Result<(), DbError>)
        ensures
            final(self).committed() == old(self).committed(),
            final(self).state().wf(),
            match old(self).state().remove_row_error(id@) {
                Some(e) => r == Err::<(), DbError>(e) && final(self).state() == old(self).state(),
                None => r is Ok && final(self).state() == old(self).state().without_row(id@),
            },
    ;

    /// Removes the task with the identifier `uuid`; does nothing if no such task is stored.
    /// Fails with [`DbError::ForeignKey`] if it is the current task.
    fn try_remove_task_by_uuid(&mut self, uuid: &Uuid) -> (r: Result<(), DbError>)
        ensures
            final(self).committed() == old(self).committed(),
            final(self).state().wf(),
            match old(self).state().removed_current(*uuid) {
                Some(_) => r == Err::<(), DbError>(DbError::ForeignKey) && final(self).state() == old(
                    self,
                ).state(),
                None => r is Ok && final(self).state() == old(self).state().without_uuid(*uuid),
            },
    ;

    /// Registers a replica as a client. Fails with [`DbError::DuplicateReplica`] if it is
    /// registered already.
    fn store_replica(&mut self, replica_id: &ReplicaUuid) -> (r: Result<(), DbError>)
        ensures
            final(self).committed() == old(self).committed(),
            final(self).state().wf(),
            match old(self).state().register_error(*replica_id, None) {
                Some(e) => r == Err::<(), DbError>(e) && final(self).state() == old(self).state(),
                None => r is Ok && final(self).state() == old(self).state().with_replica(
                    *replica_id,
                    None,
                ),
            },
    ;

    /// Registers a replica as a server at `api_url`. Fails with
    /// [`DbError::DuplicateReplica`] if the replica is registered already, else with
    /// [`DbError::DuplicateServerUrl`] if a server is registered at that address.
    fn store_replica_server(&mut self, api_url: &str, replica_id: &ReplicaUuid) -> (r: Result<(), DbError>)
        ensures
            final(self).committed() == old(self).committed(),
            final(self).state().wf(),
            match old(self).state().register_error(*replica_id, Some(api_url@)) {
                Some(e) => r == Err::<(), DbError>(e) && final(self).state() == old(self).state(),
                None => r is Ok && final(self).state() == old(self).state().with_replica(
                    *replica_id,
                    Some(api_url@),
                ),
            },
    ;

    /// The registered servers with their addresses, in the order of registration.
    fn fetch_replica_servers(&self) -> (r: Result<Vec<(String, ReplicaUuid)>, DbError>)
        ensures
            self.state().wf(),
            r matches Ok(servers) && servers_view(servers@) == self.state().servers(),
    ;

    /// Makes what the transaction has done durable.
    fn commit(&mut self) -> (r: Result<(), DbError>)
        ensures
            r is Ok,
            final(self).state() == old(self).state(),
            final(self).committed() == old(self).state(),
            final(self).state().wf(),
    ;

    /// Undoes what the transaction has done since the last commit.
    fn rollback(&mut self) -> (r: Result<(), DbError>)
        ensures
            r is Ok,
            final(self).state() == old(self).committed(),
            final(self).committed() == old(self).committed(),
            final(self).state().wf(),
    ;
}

} // verus!

//! The operations that the rest of the crate performs on a transaction.

use crate::db::model::tasks_of;
use crate::db::model::DbError;
use crate::db::model::StoreView;
use crate::db::store::replicas_view;
use crate::db::transaction::DBTransaction;
use crate::ident::ReplicaUuid;
use crate::ident::Uuid;
use crate::selection::choices_of;
use crate::selection::SelectionStrategy;
use crate::sync::msgs_view;
use crate::sync::USetOpMsg;
use crate::task::Task;
use crate::task::TaskView;
use vstd::prelude::*;

verus! {

/// The views of some tasks, in order.
pub open spec fn tasks_view(tasks: Seq<Task>) -> Seq<TaskView> {
    tasks.map_values(|task: Task| task@)
}

/// What an optional task stands for.
pub open spec fn optional_task_view(task: Option<Task>) -> Option<TaskView> {
    match task {
        Some(task) => Some(task@),
        None => None,
    }
}

/// The task list as its users see it: tasks, the current task, and what the synchronization
/// protocol keeps in the store.
pub trait DBBackend: DBTransaction {
    /// Adds a task. Fails with [`DbError::DuplicateTask`] if a task with the same identifier
    /// is stored already.
    fn add_task(&mut self, task: &Task) -> (r: Result<(), DbError>)
        ensures
            final(self).committed() == old(self).committed(),
            final(self).state().wf(),
            match old(self).state().add_error(task@) {
                Some(e) => r == Err::<(), DbError>(e) && final(self).state() == old(self).state(),
                None => r is Ok && final(self).state() == old(self).state().with_task(task@),
            },
    ;

    /// Every task in the store's order: the ordinary tasks by ascending priority, then the
    /// breaks by ascending priority.
    fn fetch_all_tasks(&self) -> (r: Result<Vec<Task>, DbError>)
        ensures
            self.state().wf(),
            r matches Ok(tasks) && tasks_view(tasks@) == self.state().all_tasks(),
    ;

    /// The current task, if there is one.
    fn fetch_current_task(&self) -> (r: Result<Option<Task>, DbError>)
        ensures
            self.state().wf(),
            r matches Ok(task) && optional_task_view(task) == self.state().current_task(),
    ;

    /// Selects a new current task with `selector`. Where only one category has tasks, the
    /// task comes from that one; where both have, the selector chooses the category. Does
    /// nothing if the store holds no task; otherwise the store has a current task afterwards.
    fn select_current_task<S: SelectionStrategy>(&mut self, selector: &mut S) -> (r: Result<(), DbError>)
        ensures
            final(self).committed() == old(self).committed(),
            final(self).state().wf(),
            r is Ok,
            old(self).state().selects(final(self).state(), choices_of(old(selector))),
            old(self).state().tasks.len() > 0 ==> final(self).state().current is Some,
            choices_of(final(selector)).alike(choices_of(old(selector))),
    ;

    /// Replaces the current task with a newly selected one among the other tasks and keeps
    /// it in the store, as the newest task. Where it is the only task, the store is left
    /// without a current task. Does nothing if there is no current task.
    ///
    /// Fails with [`DbError::RowIdsExhausted`] if no row number is left for the skipped task;
    /// the task is then missing from the store, and the transaction is to be rolled back.
    fn skip_current_task<S: SelectionStrategy>(&mut self, selector: &mut S) -> (r: Result<(), DbError>)
        ensures
            final(self).committed() == old(self).committed(),
            final(self).state().wf(),
            old(self).state().skip_exhausts() ==> r == Err::<(), DbError>(DbError::RowIdsExhausted) && old(
                self,
            ).state().completed().selects(final(self).state(), choices_of(old(selector))),
            !old(self).state().skip_exhausts() ==> r is Ok && old(self).state().skips(
                final(self).state(),
                choices_of(old(selector)),
            ),
            choices_of(final(selector)).alike(choices_of(old(selector))),
    ;

    /// Removes the current task from the store and returns it. The store is left without a
    /// current task.
    fn complete_current_task(&mut self) -> (r: Result<Option<Task>, DbError>)
        ensures
            final(self).committed() == old(self).committed(),
            final(self).state().wf(),
            final(self).state() == old(self).state().completed(),
            r matches Ok(task) && optional_task_view(task) == old(self).state().current_task(),
    ;

    /// Removes the task with the identifier `uuid`; does nothing if no such task is stored.
    /// If it was the current task, the current pointer is emptied and the task is returned.
    fn remove_task_by_uuid(&mut self, uuid: &Uuid) -> (r: Result<Option<Task>, DbError>)
        ensures
            final(self).committed() == old(self).committed(),
            final(self).state().wf(),
            final(self).state() == old(self).state().without_uuid(*uuid),
            r matches Ok(task) && optional_task_view(task) == old(self).state().removed_current(*uuid),
    ;

    /// Queues an operation for the replica that it is addressed to.
    fn store_uset_op_msg(&mut self, uset_op_msg: &USetOpMsg) -> (r: Result<(), DbError>)
        ensures
            final(self).committed() == old(self).committed(),
            final(self).state().wf(),
            r is Ok,
            final(self).state() == old(self).state().with_msg(uset_op_msg@),
    ;

    /// The operations that wait for `replica_id`, in the order in which they were queued.
    fn fetch_uset_op_msgs(&self, replica_id: &ReplicaUuid) -> (r: Result<Vec<USetOpMsg>, DbError>)
        ensures
            self.state().wf(),
            r matches Ok(msgs) && msgs_view(msgs@) == self.state().messages_for(*replica_id),
    ;

    /// Drops the operations that wait for `replica_id`.
    fn clear_uset_op_msgs(&mut self, replica_id: &ReplicaUuid) -> (r: Result<(), DbError>)
        ensures
            final(self).committed() == old(self).committed(),
            final(self).state().wf(),
            r is Ok,
            final(self).state() == old(self).state().without_messages_for(*replica_id),
    ;

    /// The registered replicas, each with its address if it is a server, in the order of
    /// registration.
    fn fetch_replicas(&self) -> (r: Result<Vec<(ReplicaUuid, Option<String>)>, DbError>)
        ensures
            self.state().wf(),
            r matches Ok(replicas) && replicas_view(replicas@) == self.state().replicas,
    ;

    /// Registers a replica as a client. Fails with [`DbError::DuplicateReplica`] if it is
    /// registered already.
    fn store_replica_client(&mut self, replica_id: &ReplicaUuid) -> (r: Result<(), DbError>)
        ensures
            final(self).committed() == old(self).committed(),
            final(self).state().wf(),
            match old(self).state().register_error(*replica_id, None) {
                Some(e) => r == Err::<(), DbError>(e) && final(self).state() == old(self).state(),
                None => r is Ok && final(self).state() == old(self).state().with_replica(
                    *replica_id,
                    None,
                ),
            },
    ;

    /// Ends the transaction and makes what it has done durable.
    fn finish(&mut self) -> (r: Result<(), DbError>)
        ensures
            r is Ok,
            final(self).state() == old(self).state(),
            final(self).committed() == old(self).state(),
            final(self).state().wf(),
    ;
}

} // verus!

//! The U-Set replicated set: its two operations and how they are applied to a store.

pub mod model;
pub mod process;
pub mod server;

use crate::db::backend::DBBackend;
use crate::db::backend::optional_task_view;
use crate::db::model::DbError;
use crate::db::model::StoreView;
use crate::db::transaction::DBTransaction;
use crate::sync::model::removal_notice;
use crate::ident::ReplicaUuid;
use crate::selection::choices_of;
use crate::selection::SelectionStrategy;
use crate::ident::Uuid;
use crate::task::Task;
use crate::task::TaskView;
use vstd::prelude::*;
use vstd::string::StringExecFns;

verus! {

/// What an operation is: the task that it adds, or the identifier of the task that it removes.
pub enum OpView {
    Add(TaskView),
    Remove(Uuid),
}

/// What a queued message is: an operation and the replica that it waits for.
pub struct MsgView {
    pub op: OpView,
    pub deliver_to: ReplicaUuid,
}

/// An operation on the replicated task set.
#[derive(Debug, PartialEq, Eq)]
pub enum USetOp {
    Add(Task),
    Remove(Uuid),
}

/// An operation together with the replica that is to receive it.
#[derive(Debug, PartialEq, Eq)]
pub struct USetOpMsg {
    pub op: USetOp,
    pub deliver_to: ReplicaUuid,
}

impl View for USetOp {
    type V = OpView;

    open spec fn view(&self) -> OpView {
        match *self {
            USetOp::Add(task) => OpView::Add(task@),
            USetOp::Remove(uuid) => OpView::Remove(uuid),
        }
    }
}

impl View for USetOpMsg {
    type V = MsgView;

    open spec fn view(&self) -> MsgView {
        MsgView { op: self.op@, deliver_to: self.deliver_to }
    }
}

impl Clone for USetOp {
    fn clone(&self) -> (res: USetOp)
        ensures
            res == *self,
    {
        match self {
            USetOp::Add(task) => USetOp::Add(task.clone()),
            USetOp::Remove(uuid) => USetOp::Remove(*uuid),
        }
    }
}

impl Clone for USetOpMsg {
    fn clone(&self) -> (res: USetOpMsg)
        ensures
            res == *self,
    {
        USetOpMsg { op: self.op.clone(), deliver_to: self.deliver_to }
    }
}

/// The views of a sequence of operations, in order.
pub open spec fn ops_view(ops: Seq<USetOp>) -> Seq<OpView> {
    ops.map_values(|op: USetOp| op@)
}

/// The views of a sequence of messages, in order.
pub open spec fn msgs_view(msgs: Seq<USetOpMsg>) -> Seq<MsgView> {
    msgs.map_values(|msg: USetOpMsg| msg@)
}

/// The texts that some strings hold, in order.
pub open spec fn strings_view(strings: Seq<String>) -> Seq<Seq<char>> {
    strings.map_values(|s: String| s@)
}

/// Applies operations to the store in order and stops at the first that fails. Returns what
/// the user is to be told, see [`USetOp::apply_to_db`]. After a failure the transaction holds
/// what the operations before the failing one have done, and is to be rolled back.
pub fn apply_all_uset_ops<T: DBBackend>(tx: &mut T, operations: &[USetOp]) -> (r: Result<Vec<String>, DbError>)
    ensures
        final(tx).committed() == old(tx).committed(),
        old(tx).state().wf() ==> final(tx).state().wf(),
        match old(tx).state().applied_all(ops_view(operations@)) {
            Ok(store) => {
                &&& final(tx).state() == store
                &&& r matches Ok(output)
                &&& strings_view(output@) == old(tx).state().notices_all(ops_view(operations@))
            },
            Err(e) => {
                &&& r == Err::<Vec<String>, DbError>(e)
                &&& old(tx).state().fails_at(ops_view(operations@), final(tx).state())
            },
        },
{
    let ghost before = tx.state();
    let ghost ops = ops_view(operations@);
    let mut output: Vec<String> = Vec::new();
    let mut i: usize = 0;
    while i < operations.len()
        invariant
            i <= operations@.len(),
            ops == ops_view(operations@),
            before == old(tx).state(),
            tx.committed() == old(tx).committed(),
            before.wf() ==> tx.state().wf(),
            before.applied_all(ops.take(i as int)) == Ok::<StoreView, DbError>(tx.state()),
            strings_view(output@) == before.notices_all(ops.take(i as int)),
        decreases operations.len() - i,
    {
        proof {
            assert(ops.take(i as int + 1).drop_last() =~= ops.take(i as int));
        }
        match operations[i].apply_to_db(tx) {
            Ok(mut notices) => {
                output.append(&mut notices);
            },
            Err(e) => {
                proof {
                    before.lemma_applied_all_error(ops, i as int + 1);
                    assert(before.stops_at(ops, i as int, tx.state()));
                }
                return Err(e);
            },
        }
        i += 1;
    }
    assert(ops.take(i as int) =~= ops);
    Ok(output)
}

impl USetOp {
    /// Applies the operation to the store. Returns what the user is to be told: that the
    /// current task was removed, if the operation removed it.
    pub fn apply_to_db<T: DBBackend>(&self, tx: &mut T) -> (r: Result<Vec<String>, DbError>)
        ensures
            final(tx).committed() == old(tx).committed(),
            final(tx).state().wf(),
            match old(tx).state().apply_error(self@) {
                Some(e) => r == Err::<Vec<String>, DbError>(e) && final(tx).state() == old(tx).state(),
                None => {
                    &&& final(tx).state() == old(tx).state().applied(self@)
                    &&& r matches Ok(output)
                    &&& strings_view(output@) == old(tx).state().apply_notices(self@)
                },
            },
    {
        match self {
            USetOp::Add(task) => {
                match USetOp::apply_add_to_db(tx, task) {
                    Ok(()) => {
                        let output: Vec<String> = Vec::new();
                        Ok(output)
                    },
                    Err(e) => Err(e),
                }
            },
            USetOp::Remove(uuid) => {
                match USetOp::apply_remove_to_db(tx, uuid) {
                    Ok(removed) => {
                        let mut output: Vec<String> = Vec::new();
                        if let Some(task) = removed {
                            let mut notice = String::from_str("Current task removed during sync: ");
                            notice.append(task.task());
                            output.push(notice);
                        }
                        Ok(output)
                    },
                    Err(e) => Err(e),
                }
            },
        }
    }

    /// Applies an add. Fails if a task with the same identifier is stored already.
    pub fn apply_add_to_db<T: DBBackend>(tx: &mut T, task: &Task) -> (r: Result<(), DbError>)
        ensures
            final(tx).committed() == old(tx).committed(),
            final(tx).state().wf(),
            match old(tx).state().add_error(task@) {
                Some(e) => r == Err::<(), DbError>(e) && final(tx).state() == old(tx).state(),
                None => r is Ok && final(tx).state() == old(tx).state().with_task(task@),
            },
    {
        tx.add_task(task)
    }

    /// Applies a remove. Returns the task if it was the current task, so that the user can
    /// be told. Does nothing if no task has the identifier.
    pub fn apply_remove_to_db<T: DBBackend>(tx: &mut T, uuid: &Uuid) -> (r: Result<Option<Task>, DbError>)
        ensures
            final(tx).committed() == old(tx).committed(),
            final(tx).state().wf(),
            final(tx).state() == old(tx).state().without_uuid(*uuid),
            r matches Ok(task) && optional_task_view(task) == old(tx).state().removed_current(*uuid),
    {
        tx.remove_task_by_uuid(uuid)
    }
}

/// Applies the operations that a remote replica sent and then selects a current task if
/// they left the store without one, so that the pointer invariant holds afterwards. Returns
/// what the user is to be told, see [`USetOp::apply_to_db`].
pub fn apply_incoming_uset_ops<T: DBBackend, S: SelectionStrategy>(
    tx: &mut T,
    operations: &[USetOp],
    selector: &mut S,
) -> (r: Result<Vec<String>, DbError>)
    ensures
        final(tx).committed() == old(tx).committed(),
        old(tx).state().wf() ==> final(tx).state().wf(),
        match old(tx).state().applied_all(ops_view(operations@)) {
            Ok(store) => {
                &&& store.settles(final(tx).state(), choices_of(old(selector)))
                &&& final(tx).state().pointer_holds()
                &&& r matches Ok(output)
                &&& strings_view(output@) == old(tx).state().notices_all(ops_view(operations@))
            },
            Err(e) => {
                &&& r == Err::<Vec<String>, DbError>(e)
                &&& old(tx).state().fails_at(ops_view(operations@), final(tx).state())
            },
        },
        choices_of(final(selector)).alike(choices_of(old(selector))),
{
    let output = match apply_all_uset_ops(tx, operations) {
        Ok(output) => output,
        Err(e) => {
            return Err(e);
        },
    };
    let current = match tx.fetch_current_task() {
        Ok(current) => current,
        Err(e) => {
            return Err(e);
        },
    };
    if current.is_none() {
        match tx.select_current_task(selector) {
            Ok(()) => {},
            Err(e) => {
                return Err(e);
            },
        }
    }
    Ok(output)
}

} // verus!

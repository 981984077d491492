//! What the synchronization protocol does to a store, stated over the store's model.

use crate::db::model::addressed_to;
use crate::db::model::adds_of;
use crate::db::model::msgs_to;
use crate::db::model::ops_of;
use crate::db::model::DbError;
use crate::db::model::ReplicaView;
use crate::db::model::StoreView;
use crate::ident::ReplicaUuid;
use crate::sync::MsgView;
use crate::sync::OpView;
use crate::task::TaskView;
use vstd::prelude::*;

verus! {

/// The text that tells the user that a remote replica removed the current task.
pub open spec fn removal_notice(task: TaskView) -> Seq<char> {
    "Current task removed during sync: "@ + task.description
}

impl StoreView {
    /// Why `op` cannot be applied, if it cannot. Only an add can fail.
    pub open spec fn apply_error(self, op: OpView) -> Option<DbError> {
        match op {
            OpView::Add(task) => self.add_error(task),
            OpView::Remove(_) => None,
        }
    }

    /// The store with `op` applied.
    pub open spec fn applied(self, op: OpView) -> StoreView {
        match op {
            OpView::Add(task) => self.with_task(task),
            OpView::Remove(uuid) => self.without_uuid(uuid),
        }
    }

    /// What the user is told when `op` is applied: that the current task was removed, if
    /// it was.
    pub open spec fn apply_notices(self, op: OpView) -> Seq<Seq<char>> {
        match op {
            OpView::Add(_) => Seq::empty(),
            OpView::Remove(uuid) => match self.removed_current(uuid) {
                Some(task) => seq![removal_notice(task)],
                None => Seq::empty(),
            },
        }
    }

    /// The store with `ops` applied in order, or the error of the first operation that
    /// cannot be applied.
    pub open spec fn applied_all(self, ops: Seq<OpView>) -> Result<StoreView, DbError>
        decreases ops.len(),
    {
        if ops.len() == 0 {
            Ok(self)
        } else {
            match self.applied_all(ops.drop_last()) {
                Ok(store) => match store.apply_error(ops.last()) {
                    Some(e) => Err(e),
                    None => Ok(store.applied(ops.last())),
                },
                Err(e) => Err(e),
            }
        }
    }

    /// Whether applying `ops` stops at position `index` with the store `partial`: the
    /// operations before it are applied, and the one at `index` cannot be.
    pub open spec fn stops_at(self, ops: Seq<OpView>, index: int, partial: StoreView) -> bool {
        &&& 0 <= index < ops.len()
        &&& self.applied_all(ops.take(index)) == Ok::<StoreView, DbError>(partial)
        &&& self.applied_all(ops.take(index + 1)) is Err
    }

    /// Whether `partial` is what the store holds when applying `ops` has failed: what the
    /// operations before the failing one have made of it.
    pub open spec fn fails_at(self, ops: Seq<OpView>, partial: StoreView) -> bool {
        exists|index: int| #[trigger] self.stops_at(ops, index, partial)
    }

    /// What the user is told when `ops` are applied in order.
    pub open spec fn notices_all(self, ops: Seq<OpView>) -> Seq<Seq<char>>
        decreases ops.len(),
    {
        if ops.len() == 0 {
            Seq::empty()
        } else {
            match self.applied_all(ops.drop_last()) {
                Ok(store) => self.notices_all(ops.drop_last()) + store.apply_notices(ops.last()),
                Err(_) => self.notices_all(ops.drop_last()),
            }
        }
    }

    /// What a sync of `replica` returns: what waits for it, or every stored task as an add
    /// if the replica is new.
    pub open spec fn sync_response(self, replica: ReplicaUuid) -> Seq<OpView> {
        if self.is_registered(replica) {
            ops_of(self.messages_for(replica))
        } else {
            adds_of(self.all_tasks())
        }
    }

    /// The store once a sync has looked `replica` up: a new replica is registered as a
    /// client, and what it is sent waits for it until it clears.
    pub open spec fn sync_prepared(self, replica: ReplicaUuid) -> StoreView {
        if self.is_registered(replica) {
            self
        } else {
            self.with_replica(replica, None).with_msgs(msgs_to(adds_of(self.all_tasks()), replica))
        }
    }

    /// The store with `ops` queued for each of `replicas` but `sender`, replica by replica.
    pub open spec fn fanned_out(self, replicas: Seq<ReplicaView>, sender: ReplicaUuid, ops: Seq<OpView>) -> StoreView
        decreases replicas.len(),
    {
        if replicas.len() == 0 {
            self
        } else {
            let store = self.fanned_out(replicas.drop_last(), sender, ops);
            if replicas.last().uuid == sender {
                store
            } else {
                store.with_msgs(msgs_to(ops, replicas.last().uuid))
            }
        }
    }

    /// The store after a sync of `replica` that brings `ops`, or the error of the first
    /// operation that cannot be applied. The operations are queued for the replicas that
    /// were registered before the sync.
    pub open spec fn synced(self, replica: ReplicaUuid, ops: Seq<OpView>) -> Result<StoreView, DbError> {
        match self.sync_prepared(replica).applied_all(ops) {
            Ok(store) => Ok(store.fanned_out(self.replicas, replica, ops)),
            Err(e) => Err(e),
        }
    }

    /// Once an operation has failed, what follows it does not matter.
    pub proof fn lemma_applied_all_error(self, ops: Seq<OpView>, upto: int)
        requires
            0 <= upto <= ops.len(),
            self.applied_all(ops.take(upto)) is Err,
        ensures
            self.applied_all(ops) == self.applied_all(ops.take(upto)),
        decreases ops.len() - upto,
    {
        if upto < ops.len() {
            assert(ops.take(upto + 1).drop_last() =~= ops.take(upto));
            self.lemma_applied_all_error(ops, upto + 1);
        } else {
            assert(ops.take(upto) =~= ops);
        }
    }

    /// Applying operations touches neither the registry nor the outboxes.
    pub proof fn lemma_applied_all_keeps_sync_state(self, ops: Seq<OpView>)
        ensures
            self.applied_all(ops) matches Ok(store) ==> store.replicas == self.replicas && store.outbox
                == self.outbox,
        decreases ops.len(),
    {
        if ops.len() > 0 {
            self.lemma_applied_all_keeps_sync_state(ops.drop_last());
        }
    }
}

} // verus!

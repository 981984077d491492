//! Laws of the store and of the synchronization protocol, proved over the model.

use crate::db::model::addressed_to;
use crate::db::model::adds_of;
use crate::db::model::ascending;
use crate::db::model::lemma_by_priority_ascending;
use crate::db::model::lemma_by_priority_contains;
use crate::db::model::msgs_to;
use crate::db::model::not_addressed_to;
use crate::db::model::ops_of;
use crate::db::model::tasks_of;
use crate::db::model::Choices;
use crate::db::model::DbError;
use crate::db::model::ReplicaView;
use crate::db::model::RowView;
use crate::db::model::StoreView;
use crate::ident::ReplicaUuid;
use crate::selection::choices_of;
use crate::selection::top::lemma_last_max_unique;
use crate::selection::top::top_choices;
use crate::selection::top::Top;
use crate::task::Category;
use crate::ident::Uuid;
use crate::sync::MsgView;
use crate::sync::OpView;
use crate::task::parts_error;
use crate::task::TaskView;
use vstd::prelude::*;

verus! {

/// A change to the task set: a task is added, a task is removed by its identifier, or the
/// current pointer is popped.
pub enum Mutation {
    Add(TaskView),
    Remove(Uuid),
    Pop,
}

impl StoreView {
    /// The store after a change. An add that the store refuses changes nothing.
    pub open spec fn mutated(self, mutation: Mutation) -> StoreView {
        match mutation {
            Mutation::Add(task) => if self.add_error(task) is None {
                self.with_task(task)
            } else {
                self
            },
            Mutation::Remove(uuid) => self.without_uuid(uuid),
            Mutation::Pop => self.with_current(None),
        }
    }
}

/// Whether `states` is a history of the store under `mutations`: each state but the first
/// is its predecessor after the next change, with a current task selected where the change
/// left none, by a strategy with the choices `choices`.
pub open spec fn is_history(states: Seq<StoreView>, mutations: Seq<Mutation>, choices: Choices) -> bool {
    &&& states.len() == mutations.len() + 1
    &&& forall|i: int|
        0 <= i < mutations.len() ==> (#[trigger] states[i]).mutated(mutations[i]).settles(
            states[i + 1],
            choices,
        )
}

/// Selecting a current task where there is none establishes the pointer invariant,
/// whatever the strategy may choose.
pub proof fn lemma_settled_pointer(store: StoreView, after: StoreView, choices: Choices)
    requires
        store.settles(after, choices),
    ensures
        after.pointer_holds(),
        after.tasks == store.tasks,
{
}

/// The pointer invariant: after any sequence of adds, removes and pops, each followed by
/// the selection of a current task where it left none, a store that holds a task has a
/// current task, whatever the strategy may choose.
pub proof fn lemma_pointer_invariant(states: Seq<StoreView>, mutations: Seq<Mutation>, choices: Choices)
    requires
        is_history(states, mutations, choices),
    ensures
        forall|i: int| 1 <= i < states.len() ==> (#[trigger] states[i]).pointer_holds(),
{
    assert forall|i: int| 1 <= i < states.len() implies (#[trigger] states[i]).pointer_holds() by {
        lemma_settled_pointer(states[i - 1].mutated(mutations[i - 1]), states[i], choices);
    }
}

/// The strategy [`Top`](crate::selection::top::Top) leaves no choice: it selects the same
/// current task whenever it selects on the same store.
pub proof fn lemma_top_selects_one(store: StoreView, a: StoreView, b: StoreView)
    requires
        store.selects(a, top_choices()),
        store.selects(b, top_choices()),
    ensures
        a == b,
        choices_of(&Top {}).alike(top_choices()),
{
    if store.tasks.len() > 0 {
        let (ca, ia) = choose|category: Category, index: int| #[trigger]
            store.chooses(category, index, top_choices()) && a == store.with_current(
                Some(store.candidates(category)[index].id),
            );
        let (cb, ib) = choose|category: Category, index: int| #[trigger]
            store.chooses(category, index, top_choices()) && b == store.with_current(
                Some(store.candidates(category)[index].id),
            );
        assert(store.candidates(ca) == store.candidates(cb));
        lemma_last_max_unique(tasks_of(store.candidates(ca)), ia, ib);
    }
}

/// Remove idempotence: a second remove of the same identifier is applied without an error
/// and changes nothing.
pub proof fn lemma_remove_idempotent(store: StoreView, uuid: Uuid)
    requires
        store.wf(),
    ensures
        store.apply_error(OpView::Remove(uuid)) is None,
        store.applied(OpView::Remove(uuid)).apply_error(OpView::Remove(uuid)) is None,
        store.applied(OpView::Remove(uuid)).applied(OpView::Remove(uuid)) == store.applied(
            OpView::Remove(uuid),
        ),
        !store.without_uuid(uuid).has_uuid(uuid),
{
    if store.has_uuid(uuid) {
        let index = store.index_of_uuid(uuid);
        store.lemma_removed(index);
        store.with_current(None).lemma_removed(index);
    }
}

/// The messages that bring `ops` to one replica all wait for that replica and for no other.
pub proof fn lemma_msgs_to_filtered(ops: Seq<OpView>, replica: ReplicaUuid, other: ReplicaUuid)
    ensures
        msgs_to(ops, replica).filter(addressed_to(other)) == if replica == other {
            msgs_to(ops, replica)
        } else {
            Seq::<MsgView>::empty()
        },
        ops_of(msgs_to(ops, replica)) == ops,
    decreases ops.len(),
{
    reveal(Seq::filter);
    let msgs = msgs_to(ops, replica);
    if ops.len() > 0 {
        lemma_msgs_to_filtered(ops.drop_last(), replica, other);
        assert(msgs.drop_last() =~= msgs_to(ops.drop_last(), replica));
    }
}

/// Dropping what waits for one replica leaves nothing for it, and leaves what waits for
/// the others.
pub proof fn lemma_cleared_messages(outbox: Seq<MsgView>, cleared: ReplicaUuid, other: ReplicaUuid)
    ensures
        outbox.filter(not_addressed_to(cleared)).filter(addressed_to(other)) == if cleared == other {
            Seq::<MsgView>::empty()
        } else {
            outbox.filter(addressed_to(other))
        },
    decreases outbox.len(),
{
    reveal(Seq::filter);
    if outbox.len() > 0 {
        lemma_cleared_messages(outbox.drop_last(), cleared, other);
        let kept = outbox.drop_last().filter(not_addressed_to(cleared));
        if outbox.last().deliver_to != cleared {
            kept.lemma_filter_push(outbox.last(), addressed_to(other));
        }
    }
}

/// What a fan-out does: the operations join, in order, what waits for each listed replica
/// but the sender, and nothing else changes.
pub proof fn lemma_fanned_out(
    store: StoreView,
    replicas: Seq<ReplicaView>,
    sender: ReplicaUuid,
    ops: Seq<OpView>,
    other: ReplicaUuid,
)
    requires
        forall|i: int, j: int|
            0 <= i < j < replicas.len() ==> (#[trigger] replicas[i]).uuid != (#[trigger] replicas[j]).uuid,
    ensures
        store.fanned_out(replicas, sender, ops).tasks == store.tasks,
        store.fanned_out(replicas, sender, ops).current == store.current,
        store.fanned_out(replicas, sender, ops).replicas == store.replicas,
        store.fanned_out(replicas, sender, ops).messages_for(other) == if other != sender && (exists|i: int|
            0 <= i < replicas.len() && (#[trigger] replicas[i]).uuid == other) {
            store.messages_for(other) + msgs_to(ops, other)
        } else {
            store.messages_for(other)
        },
    decreases replicas.len(),
{
    if replicas.len() > 0 {
        let rest = replicas.drop_last();
        let last = replicas.last();
        assert forall|i: int, j: int| 0 <= i < j < rest.len() implies (#[trigger] rest[i]).uuid
            != (#[trigger] rest[j]).uuid by {}
        lemma_fanned_out(store, rest, sender, ops, other);
        let prior = store.fanned_out(rest, sender, ops);
        let listed_before = exists|i: int| 0 <= i < rest.len() && (#[trigger] rest[i]).uuid == other;
        let listed = exists|i: int| 0 <= i < replicas.len() && (#[trigger] replicas[i]).uuid == other;
        assert(listed <==> listed_before || last.uuid == other) by {
            if listed {
                let i = choose|i: int| 0 <= i < replicas.len() && (#[trigger] replicas[i]).uuid == other;
                if i < rest.len() {
                    assert(rest[i].uuid == other);
                }
            }
        }
        if last.uuid != sender {
            let msgs = msgs_to(ops, last.uuid);
            Seq::filter_distributes_over_add(prior.outbox, msgs, addressed_to(other));
            lemma_msgs_to_filtered(ops, last.uuid, other);
        }
    }
}

/// What a successful sync queues: the operations join, in order, what waits for every
/// replica that was registered before the sync, but not what waits for the sender.
pub proof fn lemma_sync_delivery(store: StoreView, sender: ReplicaUuid, ops: Seq<OpView>, other: ReplicaUuid)
    requires
        store.wf(),
        store.is_registered(sender),
        store.synced(sender, ops) is Ok,
        other != sender,
    ensures
        store.synced(sender, ops)->Ok_0.replicas == store.replicas,
        store.synced(sender, ops)->Ok_0.messages_for(sender) == store.messages_for(sender),
        store.synced(sender, ops)->Ok_0.messages_for(other) == if store.is_registered(other) {
            store.messages_for(other) + msgs_to(ops, other)
        } else {
            store.messages_for(other)
        },
{
    let applied = store.applied_all(ops)->Ok_0;
    store.lemma_applied_all_keeps_sync_state(ops);
    lemma_fanned_out(applied, store.replicas, sender, ops, other);
    lemma_fanned_out(applied, store.replicas, sender, ops, sender);
}

/// A sync of a registered replica that brings no operations changes nothing.
pub proof fn lemma_sync_nothing(store: StoreView, replica: ReplicaUuid)
    requires
        store.is_registered(replica),
    ensures
        store.synced(replica, Seq::empty()) == Ok::<StoreView, DbError>(store),
{
    lemma_fanned_out_nothing(store, store.replicas, replica);
}

/// A fan-out of no operations changes nothing.
pub proof fn lemma_fanned_out_nothing(store: StoreView, replicas: Seq<ReplicaView>, sender: ReplicaUuid)
    ensures
        store.fanned_out(replicas, sender, Seq::empty()) == store,
    decreases replicas.len(),
{
    if replicas.len() > 0 {
        lemma_fanned_out_nothing(store, replicas.drop_last(), sender);
    }
}

/// Sync fan-out: let A, B and C be registered with nothing waiting for them. If A syncs
/// with the operations `ops`, a following sync of B returns exactly `ops`, and so does a
/// following sync of C. After B has cleared, a further sync of B returns nothing, while a
/// sync of C still returns `ops`. (The syncs of B and C bring no operations themselves.)
pub proof fn lemma_sync_fan_out(store: StoreView, a: ReplicaUuid, b: ReplicaUuid, c: ReplicaUuid, ops: Seq<OpView>)
    requires
        store.wf(),
        store.is_registered(a),
        store.is_registered(b),
        store.is_registered(c),
        a != b,
        a != c,
        b != c,
        store.messages_for(a) == Seq::<MsgView>::empty(),
        store.messages_for(b) == Seq::<MsgView>::empty(),
        store.messages_for(c) == Seq::<MsgView>::empty(),
        store.synced(a, ops) is Ok,
    ensures
        ({
            let after_a = store.synced(a, ops)->Ok_0;
            let after_b = after_a.synced(b, Seq::empty())->Ok_0;
            let after_c = after_b.synced(c, Seq::empty())->Ok_0;
            let cleared = after_c.without_messages_for(b);
            let again_b = cleared.synced(b, Seq::empty())->Ok_0;
            &&& after_a.sync_response(b) == ops
            &&& after_a.synced(b, Seq::empty()) is Ok
            &&& after_b.sync_response(c) == ops
            &&& after_b.synced(c, Seq::empty()) is Ok
            &&& cleared.sync_response(b) == Seq::<OpView>::empty()
            &&& cleared.synced(b, Seq::empty()) is Ok
            &&& again_b.sync_response(c) == ops
        }),
{
    let nothing = Seq::<OpView>::empty();
    let after_a = store.synced(a, ops)->Ok_0;
    assert(after_a.replicas == store.replicas && after_a.messages_for(b) == msgs_to(ops, b)
        && after_a.messages_for(c) == msgs_to(ops, c)) by {
        lemma_sync_delivery(store, a, ops, b);
        lemma_sync_delivery(store, a, ops, c);
    }
    lemma_registered_alike(store, after_a, b);
    lemma_registered_alike(store, after_a, c);
    assert(ops_of(msgs_to(ops, b)) == ops && ops_of(msgs_to(ops, c)) == ops) by {
        lemma_msgs_to_filtered(ops, b, b);
        lemma_msgs_to_filtered(ops, c, c);
    }
    assert(after_a.synced(b, nothing) == Ok::<StoreView, DbError>(after_a)) by {
        lemma_sync_nothing(after_a, b);
    }
    assert(after_a.synced(c, nothing) == Ok::<StoreView, DbError>(after_a)) by {
        lemma_sync_nothing(after_a, c);
    }
    let cleared = after_a.without_messages_for(b);
    assert(cleared.messages_for(b) == Seq::<MsgView>::empty() && cleared.messages_for(c)
        == after_a.messages_for(c)) by {
        lemma_cleared_messages(after_a.outbox, b, b);
        lemma_cleared_messages(after_a.outbox, b, c);
    }
    lemma_registered_alike(after_a, cleared, b);
    lemma_registered_alike(after_a, cleared, c);
    assert(cleared.synced(b, nothing) == Ok::<StoreView, DbError>(cleared)) by {
        lemma_sync_nothing(cleared, b);
    }
}

/// Whether a replica is registered depends on the registry alone.
pub proof fn lemma_registered_alike(store: StoreView, other: StoreView, replica: ReplicaUuid)
    requires
        store.replicas == other.replicas,
    ensures
        store.is_registered(replica) == other.is_registered(replica),
{
}

/// Bootstrap export: a replica that is not registered yet is returned an add for every
/// task of the store and nothing else, in the store's order: the ordinary tasks before the
/// breaks, each category by ascending priority, tasks of equal priority in the order in
/// which they were added. The same adds are queued for the replica behind what waits for it.
pub proof fn lemma_bootstrap_export(store: StoreView, replica: ReplicaUuid)
    requires
        store.wf(),
        !store.is_registered(replica),
    ensures
        store.sync_response(replica) == adds_of(store.all_tasks()),
        store.all_tasks() == tasks_of(store.rows_in(false)) + tasks_of(store.rows_in(true)),
        store.all_tasks().len() == store.tasks.len(),
        ascending(store.rows_in(false)),
        ascending(store.rows_in(true)),
        forall|row: RowView| store.rows_in(false).contains(row) <==> store.tasks.contains(row) && !row.task.reward,
        forall|row: RowView| store.rows_in(true).contains(row) <==> store.tasks.contains(row) && row.task.reward,
        store.sync_prepared(replica).is_registered(replica),
        store.sync_prepared(replica).messages_for(replica) == store.messages_for(replica) + msgs_to(
            adds_of(store.all_tasks()),
            replica,
        ),
{
    crate::db::model::lemma_by_priority_len(store.tasks);
    lemma_by_priority_ascending(store.tasks, false);
    lemma_by_priority_ascending(store.tasks, true);
    assert forall|row: RowView| store.rows_in(false).contains(row) <==> store.tasks.contains(row)
        && !row.task.reward by {
        lemma_by_priority_contains(store.tasks, false, row);
    }
    assert forall|row: RowView| store.rows_in(true).contains(row) <==> store.tasks.contains(row)
        && row.task.reward by {
        lemma_by_priority_contains(store.tasks, true, row);
    }
    let prepared = store.sync_prepared(replica);
    let export = msgs_to(adds_of(store.all_tasks()), replica);
    assert(prepared.replicas[store.replicas.len() as int].uuid == replica);
    Seq::filter_distributes_over_add(store.outbox, export, addressed_to(replica));
    lemma_msgs_to_filtered(adds_of(store.all_tasks()), replica, replica);
}

/// Round trip through the parts: the parts of a valid task make that task again.
pub proof fn lemma_parts_round_trip(task: TaskView)
    requires
        task.valid(),
    ensures
        parts_error(task.description, task.priority) is None,
        (TaskView {
            description: task.description,
            priority: task.priority,
            reward: task.reward,
            uuid: task.uuid,
        }) == task,
        Uuid::spec_from_bytes(task.uuid.bytes()) == task.uuid,
{
    task.uuid.lemma_bytes_round_trip();
}

} // verus!

//! The store in memory, and the transaction that works on it.

use crate::db::backend::optional_task_view;
use crate::db::backend::tasks_view;
use crate::db::backend::DBBackend;
use crate::db::model::lemma_by_priority_contains;
use crate::db::model::lemma_by_priority_len;
use crate::db::model::tasks_of;
use crate::db::model::DbError;
use crate::db::model::RowView;
use crate::db::model::StoreView;
use crate::db::store::rows_view;
use crate::db::store::RowId;
use crate::db::store::Store;
use crate::db::transaction::optional_row_view;
use crate::db::transaction::row_view;
use crate::db::transaction::DBTransaction;
use crate::ident::ReplicaUuid;
use crate::ident::Uuid;
use crate::selection::candidates_view;
use crate::selection::choices_of;
use crate::selection::SelectionStrategy;
use crate::sync::msgs_view;
use crate::sync::USetOpMsg;
use crate::task::Category;
use crate::task::Task;
use vstd::prelude::*;

verus! {

/// A transaction on a store in memory: the store as it was committed last, and the copy
/// that the transaction works on.
pub struct Transaction {
    committed: Store,
    working: Store,
}

/// A store in memory.
pub struct MemoryBackend {
    journal: Transaction,
}

impl Transaction {
    /// What holds of every transaction: both of its stores are well formed.
    #[verifier::type_invariant]
    pub closed spec fn well_formed(self) -> bool {
        self.committed@.wf() && self.working@.wf()
    }

    /// Every operation that waits for a replica, with the replica that it waits for, in
    /// the order in which they were queued.
    pub fn fetch_all_uset_op_msgs(&self) -> (r: Result<Vec<USetOpMsg>, DbError>)
        ensures
            self.state().wf(),
            r matches Ok(msgs) && msgs_view(msgs@) == self.state().outbox,
    {
        proof {
            use_type_invariant(self);
        }
        Ok(self.working.messages())
    }

    /// Takes the working copy out for an operation that changes it.
    fn take_working(&mut self) -> (store: Store)
        ensures
            store@ == old(self).working@,
            store@.wf(),
            final(self).committed == old(self).committed,
    {
        proof {
            use_type_invariant(&*self);
        }
        let mut store = Store::new();
        core::mem::swap(&mut self.working, &mut store);
        store
    }

    /// Puts the working copy back.
    fn put_working(&mut self, store: Store)
        requires
            store@.wf(),
        ensures
            final(self).working == store,
            final(self).committed == old(self).committed,
    {
        proof {
            use_type_invariant(&*self);
        }
        self.working = store;
    }
}

impl MemoryBackend {
    /// What the store holds durably.
    pub closed spec fn view(&self) -> StoreView {
        self.journal.committed@
    }

    /// An empty store.
    pub fn open_in_memory() -> (db: MemoryBackend)
        ensures
            db@ == StoreView::empty(),
            db@.wf(),
    {
        MemoryBackend { journal: Transaction { committed: Store::new(), working: Store::new() } }
    }

    /// Begins a transaction. It sees the store as it was committed last, and the store
    /// holds afterwards what the transaction has committed.
    pub fn transaction(&mut self) -> (tx: &mut Transaction)
        ensures
            tx.state() == old(self)@,
            tx.committed() == old(self)@,
            tx.state().wf(),
            final(self)@ == final(tx).committed(),
    {
        proof {
            use_type_invariant(&self.journal);
        }
        let fresh = self.journal.committed.duplicate();
        self.journal.put_working(fresh);
        &mut self.journal
    }
}

impl DBTransaction for Transaction {
    closed spec fn state(&self) -> StoreView {
        self.working@
    }

    closed spec fn committed(&self) -> StoreView {
        self.committed@
    }

    fn fetch_tasks(&self) -> (r: Result<Vec<(RowId, Task)>, DbError>) {
        proof {
            use_type_invariant(self);
        }
        Ok(self.working.fetch(false))
    }

    fn fetch_breaks(&self) -> (r: Result<Vec<(RowId, Task)>, DbError>) {
        proof {
            use_type_invariant(self);
        }
        Ok(self.working.fetch(true))
    }

    fn set_current_task(&mut self, id: &RowId) -> (r: Result<(), DbError>) {
        let mut store = self.take_working();
        let r = store.set_current(id);
        self.put_working(store);
        r
    }

    fn pop_current_task(&mut self) -> (r: Result<Option<(RowId, Task)>, DbError>) {
        let mut store = self.take_working();
        let popped = store.current_row();
        store.clear_current();
        self.put_working(store);
        Ok(popped)
    }

    fn remove_task(&mut self, id: &RowId) -> (r: Result<(), DbError>) {
        let mut store = self.take_working();
        let r = store.delete_row(id);
        self.put_working(store);
        r
    }

    fn try_remove_task_by_uuid(&mut self, uuid: &Uuid) -> (r: Result<(), DbError>) {
        let mut store = self.take_working();
        let r = store.delete_uuid(uuid);
        self.put_working(store);
        r
    }

    fn store_replica(&mut self, replica_id: &ReplicaUuid) -> (r: Result<(), DbError>) {
        let mut store = self.take_working();
        let r = store.register(replica_id, None);
        self.put_working(store);
        r
    }

    fn store_replica_server(&mut self, api_url: &str, replica_id: &ReplicaUuid) -> (r: Result<(), DbError>) {
        let mut store = self.take_working();
        let r = store.register(replica_id, Some(api_url));
        self.put_working(store);
        r
    }

    fn fetch_replica_servers(&self) -> (r: Result<Vec<(String, ReplicaUuid)>, DbError>) {
        proof {
            use_type_invariant(self);
        }
        Ok(self.working.servers())
    }

    fn commit(&mut self) -> (r: Result<(), DbError>) {
        proof {
            use_type_invariant(&*self);
        }
        let copy = self.working.duplicate();
        self.committed = copy;
        Ok(())
    }

    fn rollback(&mut self) -> (r: Result<(), DbError>) {
        proof {
            use_type_invariant(&*self);
        }
        let copy = self.committed.duplicate();
        self.working = copy;
        Ok(())
    }
}

impl DBBackend for Transaction {
    fn add_task(&mut self, task: &Task) -> (r: Result<(), DbError>) {
        let mut store = self.take_working();
        let r = store.insert_task(task);
        self.put_working(store);
        r
    }

    fn fetch_all_tasks(&self) -> (r: Result<Vec<Task>, DbError>) {
        proof {
            use_type_invariant(self);
        }
        let tasks = self.working.fetch(false);
        let breaks = self.working.fetch(true);
        let mut all: Vec<Task> = Vec::new();
        let mut i: usize = 0;
        while i < tasks.len()
            invariant
                i <= tasks.len(),
                tasks_view(all@) == tasks_of(rows_view(tasks@)).take(i as int),
            decreases tasks.len() - i,
        {
            let ghost held = tasks_view(all@);
            all.push(tasks[i].1.clone());
            assert(tasks_view(all@) =~= held.push(tasks@[i as int].1@));
            i += 1;
        }
        let mut k: usize = 0;
        while k < breaks.len()
            invariant
                k <= breaks.len(),
                tasks_view(all@) == tasks_of(rows_view(tasks@)) + tasks_of(rows_view(breaks@)).take(k as int),
            decreases breaks.len() - k,
        {
            let ghost held = tasks_view(all@);
            all.push(breaks[k].1.clone());
            assert(tasks_of(rows_view(tasks@)) + tasks_of(rows_view(breaks@)).take(k as int + 1) =~= held.push(
                breaks@[k as int].1@,
            ));
            k += 1;
        }
        Ok(all)
    }

    fn fetch_current_task(&self) -> (r: Result<Option<Task>, DbError>) {
        proof {
            use_type_invariant(self);
        }
        match self.working.current_row() {
            Some(row) => Ok(Some(row.1)),
            None => Ok(None),
        }
    }

    fn select_current_task<S: SelectionStrategy>(&mut self, selector: &mut S) -> (r: Result<(), DbError>) {
        let ghost before = self.state();
        let ghost choices = choices_of(selector);
        let tasks = match self.fetch_tasks() {
            Ok(rows) => rows,
            Err(e) => {
                return Err(e);
            },
        };
        let breaks = match self.fetch_breaks() {
            Ok(rows) => rows,
            Err(e) => {
                return Err(e);
            },
        };
        proof {
            lemma_by_priority_len(before.tasks);
        }
        // No task of either category: there cannot be a current task.
        if tasks.len() == 0 && breaks.len() == 0 {
            return Ok(());
        }
        let ghost mut category = Category::Task;
        // Where one category is empty the other is used; where neither is, the strategy
        // chooses.
        let candidates = if tasks.len() == 0 {
            breaks
        } else if breaks.len() == 0 {
            tasks
        } else {
            match selector.select_category() {
                Category::Break => {
                    proof {
                        category = Category::Break;
                    }
                    breaks
                },
                Category::Task => tasks,
            }
        };
        let ghost offered = tasks_of(before.candidates(category));
        let mut refs: Vec<&Task> = Vec::new();
        let mut i: usize = 0;
        while i < candidates.len()
            invariant
                i <= candidates.len(),
                offered == tasks_of(rows_view(candidates@)),
                candidates_view(refs@) == offered.take(i as int),
            decreases candidates.len() - i,
        {
            let ghost held = candidates_view(refs@);
            refs.push(&candidates[i].1);
            assert(candidates_view(refs@) =~= held.push(offered[i as int]));
            assert(offered.take(i as int + 1) =~= held.push(offered[i as int]));
            i += 1;
        }
        assert(offered.take(i as int) =~= offered);
        let index = selector.select_task(refs.as_slice());
        proof {
            let row = before.candidates(category)[index as int];
            lemma_by_priority_contains(before.tasks, true, row);
            lemma_by_priority_contains(before.tasks, false, row);
            assert(before.chooses(category, index as int, choices));
        }
        self.set_current_task(&candidates[index].0)
    }

    fn skip_current_task<S: SelectionStrategy>(&mut self, selector: &mut S) -> (r: Result<(), DbError>) {
        let ghost before = self.state();
        proof {
            use_type_invariant(&*self);
        }
        let popped = match self.pop_current_task() {
            Ok(popped) => popped,
            Err(e) => {
                return Err(e);
            },
        };
        // Without a current task there is no task at all to skip.
        let (old_id, old_task) = match popped {
            Some(row) => row,
            None => {
                return Ok(());
            },
        };
        proof {
            let id = before.current->0;
            before.lemma_index(before.index_of_row(id));
            before.with_current(None).lemma_removed(before.index_of_row(id));
        }
        match self.remove_task(&old_id) {
            Ok(()) => {},
            Err(e) => {
                return Err(e);
            },
        }
        match self.select_current_task(selector) {
            Ok(()) => {},
            Err(e) => {
                return Err(e);
            },
        }
        let ghost selected = self.state();
        proof {
            before.completed().lemma_selects_keeps_tasks(selected, choices_of(old(selector)));
        }
        self.add_task(&old_task)
    }

    fn complete_current_task(&mut self) -> (r: Result<Option<Task>, DbError>) {
        let ghost before = self.state();
        proof {
            use_type_invariant(&*self);
        }
        let popped = match self.pop_current_task() {
            Ok(popped) => popped,
            Err(e) => {
                return Err(e);
            },
        };
        let (id, task) = match popped {
            Some(row) => row,
            None => {
                return Ok(None);
            },
        };
        proof {
            before.lemma_index(before.index_of_row(before.current->0));
        }
        match self.remove_task(&id) {
            Ok(()) => Ok(Some(task)),
            Err(e) => Err(e),
        }
    }

    fn remove_task_by_uuid(&mut self, uuid: &Uuid) -> (r: Result<Option<Task>, DbError>) {
        let ghost before = self.state();
        let current = match self.fetch_current_task() {
            Ok(current) => current,
            Err(e) => {
                return Err(e);
            },
        };
        proof {
            before.lemma_current_uuid(*uuid);
        }
        // The current task leaves the store the way a completed task does.
        if let Some(current_task) = current {
            if *current_task.uuid() == *uuid {
                return self.complete_current_task();
            }
        }
        match self.try_remove_task_by_uuid(uuid) {
            Ok(()) => Ok(None),
            Err(e) => Err(e),
        }
    }

    fn store_uset_op_msg(&mut self, uset_op_msg: &USetOpMsg) -> (r: Result<(), DbError>) {
        let mut store = self.take_working();
        store.queue(uset_op_msg);
        self.put_working(store);
        Ok(())
    }

    fn fetch_uset_op_msgs(&self, replica_id: &ReplicaUuid) -> (r: Result<Vec<USetOpMsg>, DbError>) {
        proof {
            use_type_invariant(self);
        }
        Ok(self.working.messages_for(replica_id))
    }

    fn clear_uset_op_msgs(&mut self, replica_id: &ReplicaUuid) -> (r: Result<(), DbError>) {
        let mut store = self.take_working();
        store.clear_messages_for(replica_id);
        self.put_working(store);
        Ok(())
    }

    fn fetch_replicas(&self) -> (r: Result<Vec<(ReplicaUuid, Option<String>)>, DbError>) {
        proof {
            use_type_invariant(self);
        }
        Ok(self.working.replicas())
    }

    fn store_replica_client(&mut self, replica_id: &ReplicaUuid) -> (r: Result<(), DbError>) {
        self.store_replica(replica_id)
    }

    fn finish(&mut self) -> (r: Result<(), DbError>) {
        self.commit()
    }
}

} // verus!

//! The tables of the store, held in memory.

use crate::db::model::by_priority;
use crate::db::model::insertion_point;
use crate::db::model::rows_wf;
use crate::db::model::replicas_wf;
use crate::db::model::addressed_to;
use crate::db::model::max_row_id;
use crate::db::model::not_addressed_to;
use crate::db::model::DbError;
use crate::db::model::ReplicaView;
use crate::db::model::RowView;
use crate::db::model::StoreView;
use crate::ident::ReplicaUuid;
use crate::ident::Uuid;
use crate::sync::msgs_view;
use crate::sync::USetOpMsg;
use crate::task::Task;
use vstd::prelude::*;

verus! {

/// The handle of a stored task. It is only meaningful in the transaction that handed it out.
#[derive(Debug, Clone, Copy, PartialEq, Eq, Structural)]
pub struct RowId {
    id: i64,
}

impl View for RowId {
    type V = int;

    closed spec fn view(&self) -> int {
        self.id as int
    }
}

impl RowId {
    /// The row number.
    pub fn value(&self) -> (value: i64)
        ensures
            value == self@,
    {
        self.id
    }
}

/// The rows that a vector of handles and tasks stands for.
pub open spec fn rows_view(rows: Seq<(RowId, Task)>) -> Seq<RowView> {
    rows.map_values(|row: (RowId, Task)| RowView { id: row.0@, task: row.1@ })
}

/// The registry entries that a vector of identifiers and addresses stands for.
pub open spec fn replicas_view(replicas: Seq<(ReplicaUuid, Option<String>)>) -> Seq<ReplicaView> {
    replicas.map_values(
        |replica: (ReplicaUuid, Option<String>)|
            ReplicaView {
                uuid: replica.0,
                api_url: match replica.1 {
                    Some(url) => Some(url@),
                    None => None,
                },
            },
    )
}

/// The servers that a vector of addresses and identifiers stands for.
pub open spec fn servers_view(servers: Seq<(String, ReplicaUuid)>) -> Seq<ReplicaView> {
    servers.map_values(|server: (String, ReplicaUuid)| ReplicaView { uuid: server.1, api_url: Some(server.0@) })
}

/// The address that an optional string slice stands for.
pub open spec fn url_view(api_url: Option<&str>) -> Option<Seq<char>> {
    match api_url {
        Some(url) => Some(url@),
        None => None,
    }
}

/// The tables. Every operation expects and keeps [`StoreView::wf`].
pub(crate) struct Store {
    tasks: Vec<(RowId, Task)>,
    current: Option<RowId>,
    replicas: Vec<(ReplicaUuid, Option<String>)>,
    outbox: Vec<USetOpMsg>,
}

impl View for Store {
    type V = StoreView;

    closed spec fn view(&self) -> StoreView {
        StoreView {
            tasks: rows_view(self.tasks@),
            current: match self.current {
                Some(id) => Some(id@),
                None => None,
            },
            replicas: replicas_view(self.replicas@),
            outbox: msgs_view(self.outbox@),
        }
    }
}

impl Store {
    /// The store that holds nothing.
    pub(crate) fn new() -> (store: Store)
        ensures
            store@ == StoreView::empty(),
            store@.wf(),
    {
        let store = Store { tasks: Vec::new(), current: None, replicas: Vec::new(), outbox: Vec::new() };
        assert(store@.tasks =~= Seq::empty());
        assert(store@.replicas =~= Seq::empty());
        assert(store@.outbox =~= Seq::empty());
        store
    }

    /// The position of the row with the number `id`.
    fn find_row(&self, id: &RowId) -> (r: Option<usize>)
        requires
            self@.wf(),
        ensures
            match r {
                Some(index) => index < self@.tasks.len() && self@.tasks[index as int].id == id@
                    && self@.has_row(id@) && self@.index_of_row(id@) == index,
                None => !self@.has_row(id@),
            },
    {
        let mut i: usize = 0;
        while i < self.tasks.len()
            invariant
                i <= self.tasks.len(),
                self@.wf(),
                forall|j: int| 0 <= j < i ==> (#[trigger] self@.tasks[j]).id != id@,
            decreases self.tasks.len() - i,
        {
            if self.tasks[i].0.id == id.id {
                return Some(i);
            }
            i += 1;
        }
        None
    }

    /// The position of the task with the identifier `uuid`.
    fn find_uuid(&self, uuid: &Uuid) -> (r: Option<usize>)
        requires
            self@.wf(),
        ensures
            match r {
                Some(index) => index < self@.tasks.len() && self@.tasks[index as int].task.uuid == *uuid
                    && self@.has_uuid(*uuid) && self@.index_of_uuid(*uuid) == index,
                None => !self@.has_uuid(*uuid),
            },
    {
        let mut i: usize = 0;
        while i < self.tasks.len()
            invariant
                i <= self.tasks.len(),
                self@.wf(),
                forall|j: int| 0 <= j < i ==> (#[trigger] self@.tasks[j]).task.uuid != *uuid,
            decreases self.tasks.len() - i,
        {
            if *self.tasks[i].1.uuid() == *uuid {
                return Some(i);
            }
            i += 1;
        }
        None
    }

    /// The rows of one category, by ascending priority.
    pub(crate) fn fetch(&self, reward: bool) -> (rows: Vec<(RowId, Task)>)
        ensures
            rows_view(rows@) == self@.rows_in(reward),
    {
        let mut sorted: Vec<(RowId, Task)> = Vec::new();
        let mut i: usize = 0;
        while i < self.tasks.len()
            invariant
                i <= self.tasks.len(),
                self@.tasks == rows_view(self.tasks@),
                rows_view(sorted@) == by_priority(self@.tasks.take(i as int), reward),
            decreases self.tasks.len() - i,
        {
            let ghost before = self@.tasks.take(i as int);
            let ghost upto = self@.tasks.take(i as int + 1);
            assert(upto.drop_last() =~= before);
            if self.tasks[i].1.is_break() == reward {
                let priority = self.tasks[i].1.priority();
                let ghost held = rows_view(sorted@);
                let mut j: usize = sorted.len();
                assert(held.take(j as int) =~= held);
                while j > 0 && sorted[j - 1].1.priority() > priority
                    invariant
                        j <= sorted.len(),
                        held == rows_view(sorted@),
                        insertion_point(held, priority) == insertion_point(held.take(j as int), priority),
                    decreases j,
                {
                    assert(held.take(j as int).drop_last() =~= held.take(j as int - 1));
                    j -= 1;
                }
                let row = (self.tasks[i].0, self.tasks[i].1.clone());
                sorted.insert(j, row);
            }
            i += 1;
        }
        assert(self@.tasks.take(i as int) =~= self@.tasks);
        sorted
    }

    /// Adds `task` as the newest row, unless a task with its identifier is stored already.
    pub(crate) fn insert_task(&mut self, task: &Task) -> (r: Result<(), DbError>)
        requires
            old(self)@.wf(),
        ensures
            match old(self)@.add_error(task@) {
                Some(e) => r == Err::<(), DbError>(e) && final(self)@ == old(self)@,
                None => r is Ok && final(self)@ == old(self)@.with_task(task@),
            },
            final(self)@.wf(),
    {
        proof {
            use_type_invariant(task);
        }
        if self.find_uuid(task.uuid()).is_some() {
            return Err(DbError::DuplicateTask);
        }
        let count = self.tasks.len();
        let id: i64 = if count == 0 {
            1
        } else {
            let last = self.tasks[count - 1].0.id;
            if last == i64::MAX {
                return Err(DbError::RowIdsExhausted);
            }
            last + 1
        };
        let ghost before = self@;
        let ghost row = RowView { id: id as int, task: task@ };
        let copy = task.clone();
        proof {
            let rows = before.tasks.push(row);
            assert(rows_view(self.tasks@.push((RowId { id }, copy))) =~= rows);
            assert forall|a: int, b: int| 0 <= a < b < rows.len() implies (#[trigger] rows[a]).id
                < (#[trigger] rows[b]).id && rows[a].task.uuid != rows[b].task.uuid by {}
            let after = before.with_task(task@);
            assert(after.current matches Some(c) ==> after.has_row(c)) by {
                if let Some(c) = after.current {
                    let k = before.index_of_row(c);
                    assert(after.tasks[k] == before.tasks[k]);
                }
            }
        }
        self.tasks.push((RowId { id }, copy));
        Ok(())
    }

    /// Points the current pointer at the row with the number `id`. Fails if there is no
    /// such row.
    pub(crate) fn set_current(&mut self, id: &RowId) -> (r: Result<(), DbError>)
        requires
            old(self)@.wf(),
        ensures
            old(self)@.has_row(id@) ==> r is Ok && final(self)@ == old(self)@.with_current(Some(id@)),
            !old(self)@.has_row(id@) ==> r == Err::<(), DbError>(DbError::ForeignKey) && final(self)@ == old(self)@,
            final(self)@.wf(),
    {
        match self.find_row(id) {
            Some(_) => {
                self.current = Some(*id);
                Ok(())
            },
            None => Err(DbError::ForeignKey),
        }
    }

    /// The row that the current pointer refers to.
    pub(crate) fn current_row(&self) -> (r: Option<(RowId, Task)>)
        requires
            self@.wf(),
        ensures
            match r {
                Some(row) => self@.current_row() == Some(RowView { id: row.0@, task: row.1@ }),
                None => self@.current_row() is None,
            },
    {
        match self.current {
            Some(id) => {
                match self.find_row(&id) {
                    Some(index) => Some((id, self.tasks[index].1.clone())),
                    None => None,
                }
            },
            None => None,
        }
    }

    /// Empties the current pointer.
    pub(crate) fn clear_current(&mut self)
        requires
            old(self)@.wf(),
        ensures
            final(self)@ == old(self)@.with_current(None),
            final(self)@.wf(),
    {
        self.current = None;
    }

    /// Removes the row at position `index`, which the current pointer must not refer to.
    fn remove_at(&mut self, index: usize)
        requires
            old(self)@.wf(),
            index < old(self)@.tasks.len(),
            old(self)@.current != Some(old(self)@.tasks[index as int].id),
        ensures
            final(self)@ == old(self)@.without_index(index as int),
            final(self)@.wf(),
    {
        let ghost before = self@;
        self.tasks.remove(index);
        proof {
            let rows = before.tasks.remove(index as int);
            assert(self@.tasks =~= rows);
            assert forall|a: int| 0 <= a < rows.len() implies 1 <= (#[trigger] rows[a]).id <= max_row_id()
                && rows[a].task.valid() by {}
            assert forall|a: int, b: int| 0 <= a < b < rows.len() implies (#[trigger] rows[a]).id
                < (#[trigger] rows[b]).id && rows[a].task.uuid != rows[b].task.uuid by {
                let a0 = if a < index { a } else { a + 1 };
                let b0 = if b < index { b } else { b + 1 };
                assert(rows[a] == before.tasks[a0]);
                assert(rows[b] == before.tasks[b0]);
            }
            if let Some(c) = before.current {
                let k = before.index_of_row(c);
                if k < index {
                    assert(rows[k] == before.tasks[k]);
                } else {
                    assert(rows[k - 1] == before.tasks[k]);
                }
            }
        }
    }

    /// Removes the row with the number `id`. Fails if there is no such row, and if the row
    /// is the current task.
    pub(crate) fn delete_row(&mut self, id: &RowId) -> (r: Result<(), DbError>)
        requires
            old(self)@.wf(),
        ensures
            match old(self)@.remove_row_error(id@) {
                Some(e) => r == Err::<(), DbError>(e) && final(self)@ == old(self)@,
                None => r is Ok && final(self)@ == old(self)@.without_row(id@),
            },
            final(self)@.wf(),
    {
        match self.find_row(id) {
            None => Err(DbError::NoSuchRow),
            Some(index) => {
                if self.current == Some(*id) {
                    return Err(DbError::ForeignKey);
                }
                self.remove_at(index);
                Ok(())
            },
        }
    }

    /// Removes the task with the identifier `uuid` if it is stored. Fails if it is the
    /// current task.
    pub(crate) fn delete_uuid(&mut self, uuid: &Uuid) -> (r: Result<(), DbError>)
        requires
            old(self)@.wf(),
        ensures
            match old(self)@.removed_current(*uuid) {
                Some(_) => r == Err::<(), DbError>(DbError::ForeignKey) && final(self)@ == old(self)@,
                None => r is Ok && final(self)@ == old(self)@.without_uuid(*uuid),
            },
            final(self)@.wf(),
    {
        proof {
            self@.lemma_current_uuid(*uuid);
        }
        match self.find_uuid(uuid) {
            None => Ok(()),
            Some(index) => {
                if self.current == Some(self.tasks[index].0) {
                    return Err(DbError::ForeignKey);
                }
                self.remove_at(index);
                Ok(())
            },
        }
    }

    /// Registers `replica`, as a server if it comes with an address.
    pub(crate) fn register(&mut self, replica: &ReplicaUuid, api_url: Option<&str>) -> (r: Result<(), DbError>)
        requires
            old(self)@.wf(),
        ensures
            match old(self)@.register_error(*replica, url_view(api_url)) {
                Some(e) => r == Err::<(), DbError>(e) && final(self)@ == old(self)@,
                None => r is Ok && final(self)@ == old(self)@.with_replica(*replica, url_view(api_url)),
            },
            final(self)@.wf(),
    {
        let ghost before = self@;
        let owned: Option<String> = match api_url {
            Some(url) => Some(url.to_owned()),
            None => None,
        };
        let ghost wanted = url_view(api_url);
        let mut known = false;
        let mut url_taken = false;
        let mut i: usize = 0;
        while i < self.replicas.len()
            invariant
                i <= self.replicas.len(),
                self@ == before,
                before.wf(),
                before.replicas == replicas_view(self.replicas@),
                wanted == url_view(api_url),
                match owned {
                    Some(url) => wanted == Some(url@),
                    None => wanted is None,
                },
                known <==> exists|j: int| 0 <= j < i && (#[trigger] before.replicas[j]).uuid == *replica,
                url_taken <==> wanted is Some && exists|j: int|
                    0 <= j < i && (#[trigger] before.replicas[j]).api_url == wanted,
            decreases self.replicas.len() - i,
        {
            if self.replicas[i].0 == *replica {
                known = true;
            }
            match (&self.replicas[i].1, &owned) {
                (Some(theirs), Some(ours)) => {
                    if *theirs == *ours {
                        assert(before.replicas[i as int].api_url == wanted);
                        url_taken = true;
                    }
                },
                _ => {},
            }
            i += 1;
        }
        if known {
            return Err(DbError::DuplicateReplica);
        }
        if url_taken {
            return Err(DbError::DuplicateServerUrl);
        }
        let ghost entry = ReplicaView { uuid: *replica, api_url: wanted };
        let ghost entries = before.replicas.push(entry);
        proof {
            assert(replicas_view(self.replicas@.push((*replica, owned))) =~= entries);
            assert forall|a: int, b: int| 0 <= a < b < entries.len() implies (#[trigger] entries[a]).uuid
                != (#[trigger] entries[b]).uuid by {}
            assert forall|a: int, b: int|
                0 <= a < b < entries.len() && (#[trigger] entries[a]).api_url is Some
                    && (#[trigger] entries[b]).api_url is Some implies entries[a].api_url
                != entries[b].api_url by {}
        }
        self.replicas.push((*replica, owned));
        proof {
            before.lemma_pointer_kept(self@);
        }
        Ok(())
    }

    /// The registered replicas with their addresses, in the order of registration.
    pub(crate) fn replicas(&self) -> (replicas: Vec<(ReplicaUuid, Option<String>)>)
        ensures
            replicas_view(replicas@) == self@.replicas,
    {
        let mut out: Vec<(ReplicaUuid, Option<String>)> = Vec::new();
        let mut i: usize = 0;
        while i < self.replicas.len()
            invariant
                i <= self.replicas.len(),
                self@.replicas == replicas_view(self.replicas@),
                replicas_view(out@) == self@.replicas.take(i as int),
            decreases self.replicas.len() - i,
        {
            let url = match &self.replicas[i].1 {
                Some(url) => Some(url.clone()),
                None => None,
            };
            let ghost held = replicas_view(out@);
            out.push((self.replicas[i].0, url));
            assert(replicas_view(out@) =~= held.push(self@.replicas[i as int]));
            i += 1;
        }
        out
    }

    /// The registered servers with their addresses, in the order of registration.
    pub(crate) fn servers(&self) -> (servers: Vec<(String, ReplicaUuid)>)
        ensures
            servers_view(servers@) == self@.servers(),
    {
        let mut out: Vec<(String, ReplicaUuid)> = Vec::new();
        let mut i: usize = 0;
        let ghost is_server = |replica: ReplicaView| replica.api_url is Some;
        assert(self@.replicas.take(0).filter(is_server) =~= Seq::empty()) by {
            self@.replicas.take(0).lemma_filter_len(is_server);
        }
        while i < self.replicas.len()
            invariant
                i <= self.replicas.len(),
                self@.replicas == replicas_view(self.replicas@),
                is_server == |replica: ReplicaView| replica.api_url is Some,
                servers_view(out@) == self@.replicas.take(i as int).filter(is_server),
            decreases self.replicas.len() - i,
        {
            proof {
                assert(self@.replicas.take(i as int + 1) =~= self@.replicas.take(i as int).push(
                    self@.replicas[i as int],
                ));
                self@.replicas.take(i as int).lemma_filter_push(self@.replicas[i as int], is_server);
            }
            match &self.replicas[i].1 {
                Some(url) => {
                    out.push((url.clone(), self.replicas[i].0));
                },
                None => {},
            }
            i += 1;
        }
        assert(self@.replicas.take(i as int) =~= self@.replicas);
        out
    }

    /// Queues `msg` behind the messages that wait already.
    pub(crate) fn queue(&mut self, msg: &USetOpMsg)
        requires
            old(self)@.wf(),
        ensures
            final(self)@ == old(self)@.with_msg(msg@),
            final(self)@.wf(),
    {
        let ghost before = self@;
        self.outbox.push(msg.clone());
        assert(self@.outbox =~= before.outbox.push(msg@));
        proof {
            before.lemma_pointer_kept(self@);
        }
    }

    /// The messages that wait for `replica`, oldest first.
    pub(crate) fn messages_for(&self, replica: &ReplicaUuid) -> (msgs: Vec<USetOpMsg>)
        ensures
            msgs_view(msgs@) == self@.messages_for(*replica),
    {
        let mut out: Vec<USetOpMsg> = Vec::new();
        let mut i: usize = 0;
        let ghost wanted = addressed_to(*replica);
        assert(self@.outbox.take(0).filter(wanted) =~= Seq::empty()) by {
            self@.outbox.take(0).lemma_filter_len(wanted);
        }
        while i < self.outbox.len()
            invariant
                i <= self.outbox.len(),
                self@.outbox == msgs_view(self.outbox@),
                wanted == addressed_to(*replica),
                msgs_view(out@) == self@.outbox.take(i as int).filter(wanted),
            decreases self.outbox.len() - i,
        {
            proof {
                assert(self@.outbox.take(i as int + 1) =~= self@.outbox.take(i as int).push(
                    self@.outbox[i as int],
                ));
                self@.outbox.take(i as int).lemma_filter_push(self@.outbox[i as int], wanted);
            }
            if self.outbox[i].deliver_to == *replica {
                out.push(self.outbox[i].clone());
            }
            i += 1;
        }
        assert(self@.outbox.take(i as int) =~= self@.outbox);
        out
    }

    /// Every message that waits, oldest first.
    pub(crate) fn messages(&self) -> (msgs: Vec<USetOpMsg>)
        ensures
            msgs_view(msgs@) == self@.outbox,
    {
        let mut out: Vec<USetOpMsg> = Vec::new();
        let mut i: usize = 0;
        while i < self.outbox.len()
            invariant
                i <= self.outbox.len(),
                self@.outbox == msgs_view(self.outbox@),
                msgs_view(out@) == self@.outbox.take(i as int),
            decreases self.outbox.len() - i,
        {
            let ghost held = msgs_view(out@);
            out.push(self.outbox[i].clone());
            assert(msgs_view(out@) =~= held.push(self@.outbox[i as int]));
            i += 1;
        }
        out
    }

    /// Drops the messages that wait for `replica`.
    pub(crate) fn clear_messages_for(&mut self, replica: &ReplicaUuid)
        requires
            old(self)@.wf(),
        ensures
            final(self)@ == old(self)@.without_messages_for(*replica),
            final(self)@.wf(),
    {
        let ghost before = self@;
        let mut kept: Vec<USetOpMsg> = Vec::new();
        let mut i: usize = 0;
        let ghost wanted = not_addressed_to(*replica);
        assert(before.outbox.take(0).filter(wanted) =~= Seq::empty()) by {
            before.outbox.take(0).lemma_filter_len(wanted);
        }
        while i < self.outbox.len()
            invariant
                i <= self.outbox.len(),
                self@ == before,
                before.wf(),
                before.outbox == msgs_view(self.outbox@),
                wanted == not_addressed_to(*replica),
                msgs_view(kept@) == before.outbox.take(i as int).filter(wanted),
            decreases self.outbox.len() - i,
        {
            proof {
                assert(before.outbox.take(i as int + 1) =~= before.outbox.take(i as int).push(
                    before.outbox[i as int],
                ));
                before.outbox.take(i as int).lemma_filter_push(before.outbox[i as int], wanted);
            }
            if self.outbox[i].deliver_to != *replica {
                kept.push(self.outbox[i].clone());
            }
            i += 1;
        }
        assert(before.outbox.take(i as int) =~= before.outbox);
        self.outbox = kept;
        proof {
            before.lemma_pointer_kept(self@);
        }
    }

    /// A copy of the store.
    pub(crate) fn duplicate(&self) -> (copy: Store)
        ensures
            copy@ == self@,
    {
        let mut tasks: Vec<(RowId, Task)> = Vec::new();
        let mut i: usize = 0;
        while i < self.tasks.len()
            invariant
                i <= self.tasks.len(),
                rows_view(tasks@) == rows_view(self.tasks@).take(i as int),
            decreases self.tasks.len() - i,
        {
            let ghost held = rows_view(tasks@);
            tasks.push((self.tasks[i].0, self.tasks[i].1.clone()));
            assert(rows_view(tasks@) =~= held.push(rows_view(self.tasks@)[i as int]));
            i += 1;
        }
        assert(rows_view(self.tasks@).take(i as int) =~= rows_view(self.tasks@));
        let outbox = self.messages();
        let replicas = self.replicas();
        Store { tasks, current: self.current, replicas, outbox }
    }
}

} // verus!

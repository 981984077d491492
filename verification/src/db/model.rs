//! The mathematical model of the store, over which every contract of the crate is stated.

use crate::ident::ReplicaUuid;
use crate::ident::Uuid;
use crate::sync::MsgView;
use crate::sync::OpView;
use crate::task::Category;
use crate::task::TaskView;
use vstd::prelude::*;

verus! {

/// A stored task: the row's number and the task.
pub struct RowView {
    pub id: int,
    pub task: TaskView,
}

/// A registered replica. One with an address is a server, one without is a client.
pub struct ReplicaView {
    pub uuid: ReplicaUuid,
    pub api_url: Option<Seq<char>>,
}

/// What a selection strategy may choose: the categories that it may select, and the
/// positions that it may pick among given candidates.
pub struct Choices {
    pub category: spec_fn(Category) -> bool,
    pub task: spec_fn(Seq<TaskView>, int) -> bool,
}

impl Choices {
    /// Whether the two allow the same choices.
    pub open spec fn alike(self, other: Choices) -> bool {
        &&& forall|category: Category| #[trigger] (self.category)(category) == (other.category)(category)
        &&& forall|tasks: Seq<TaskView>, index: int| #[trigger]
            (self.task)(tasks, index) == (other.task)(tasks, index)
    }
}

/// What a store holds.
pub struct StoreView {
    /// The tasks in the order in which they were added, which is the order of their row numbers.
    pub tasks: Seq<RowView>,
    /// The row number of the current task.
    pub current: Option<int>,
    /// The registered replicas in the order in which they were registered.
    pub replicas: Seq<ReplicaView>,
    /// The operations that wait for a replica, in the order in which they were queued.
    pub outbox: Seq<MsgView>,
}

/// Why the store refused an operation. An operation on a single table that is refused has
/// changed nothing.
#[derive(Debug, Clone, Copy, PartialEq, Eq, Structural)]
pub enum DbError {
    /// A task with the same identifier is already stored.
    DuplicateTask,
    /// The replica is already registered.
    DuplicateReplica,
    /// Another server is registered under the same address.
    DuplicateServerUrl,
    /// The row is the current task and cannot be removed, or the row that should become the
    /// current task does not exist.
    ForeignKey,
    /// No row has the given number.
    NoSuchRow,
    /// The table has used up its row numbers.
    RowIdsExhausted,
}

impl DbError {
    /// The message that describes the error.
    pub fn to_string(&self) -> (message: String)
        ensures
            message@ == self.message(),
    {
        match self {
            DbError::DuplicateTask => "UNIQUE constraint failed: tasks.uuid".to_owned(),
            DbError::DuplicateReplica => "UNIQUE constraint failed: replicas.replica_uuid".to_owned(),
            DbError::DuplicateServerUrl => "UNIQUE constraint failed: servers.api_url".to_owned(),
            DbError::ForeignKey => "FOREIGN KEY constraint failed".to_owned(),
            DbError::NoSuchRow => "No rows were deleted.".to_owned(),
            DbError::RowIdsExhausted => "The table has run out of row numbers.".to_owned(),
        }
    }

    /// The message that describes the error.
    pub open spec fn message(self) -> Seq<char> {
        match self {
            DbError::DuplicateTask => "UNIQUE constraint failed: tasks.uuid"@,
            DbError::DuplicateReplica => "UNIQUE constraint failed: replicas.replica_uuid"@,
            DbError::DuplicateServerUrl => "UNIQUE constraint failed: servers.api_url"@,
            DbError::ForeignKey => "FOREIGN KEY constraint failed"@,
            DbError::NoSuchRow => "No rows were deleted."@,
            DbError::RowIdsExhausted => "The table has run out of row numbers."@,
        }
    }
}

/// The largest row number.
pub open spec fn max_row_id() -> int {
    i64::MAX as int
}

/// The rows of a table: numbered from 1 upwards in ascending order, each a valid task, no
/// identifier twice.
pub open spec fn rows_wf(rows: Seq<RowView>) -> bool {
    &&& forall|i: int|
        0 <= i < rows.len() ==> 1 <= (#[trigger] rows[i]).id <= max_row_id() && rows[i].task.valid()
    &&& forall|i: int, j: int|
        0 <= i < j < rows.len() ==> (#[trigger] rows[i]).id < (#[trigger] rows[j]).id
    &&& forall|i: int, j: int|
        0 <= i < j < rows.len() ==> (#[trigger] rows[i]).task.uuid != (#[trigger] rows[j]).task.uuid
}

/// The position of the row with the number `id` among `rows`.
pub open spec fn row_index(rows: Seq<RowView>, id: int) -> int {
    choose|i: int| 0 <= i < rows.len() && (#[trigger] rows[i]).id == id
}

/// The position of the task with the identifier `uuid` among `rows`.
pub open spec fn uuid_index(rows: Seq<RowView>, uuid: Uuid) -> int {
    choose|i: int| 0 <= i < rows.len() && (#[trigger] rows[i]).task.uuid == uuid
}

/// The registry: no replica twice, no address twice.
pub open spec fn replicas_wf(replicas: Seq<ReplicaView>) -> bool {
    &&& forall|i: int, j: int|
        0 <= i < j < replicas.len() ==> (#[trigger] replicas[i]).uuid != (#[trigger] replicas[j]).uuid
    &&& forall|i: int, j: int|
        0 <= i < j < replicas.len() && (#[trigger] replicas[i]).api_url is Some
            && (#[trigger] replicas[j]).api_url is Some ==> replicas[i].api_url != replicas[j].api_url
}

/// Where a row of priority `priority` joins rows that are sorted by priority: behind every
/// row whose priority is not greater.
pub open spec fn insertion_point(rows: Seq<RowView>, priority: u32) -> int
    decreases rows.len(),
{
    if rows.len() == 0 {
        0
    } else if rows.last().task.priority <= priority {
        rows.len() as int
    } else {
        insertion_point(rows.drop_last(), priority)
    }
}

/// The rows of one category, sorted by ascending priority; rows of equal priority keep the
/// order in which they stand in `rows`.
pub open spec fn by_priority(rows: Seq<RowView>, reward: bool) -> Seq<RowView>
    decreases rows.len(),
{
    if rows.len() == 0 {
        Seq::empty()
    } else {
        let sorted = by_priority(rows.drop_last(), reward);
        let row = rows.last();
        if row.task.reward == reward {
            sorted.insert(insertion_point(sorted, row.task.priority), row)
        } else {
            sorted
        }
    }
}

/// The tasks of some rows, in order.
pub open spec fn tasks_of(rows: Seq<RowView>) -> Seq<TaskView> {
    rows.map_values(|row: RowView| row.task)
}

/// The test that picks the messages that wait for `replica`.
pub open spec fn addressed_to(replica: ReplicaUuid) -> spec_fn(MsgView) -> bool {
    |msg: MsgView| msg.deliver_to == replica
}

/// The test that picks the messages that wait for any replica but `replica`.
pub open spec fn not_addressed_to(replica: ReplicaUuid) -> spec_fn(MsgView) -> bool {
    |msg: MsgView| msg.deliver_to != replica
}

/// The operations of some messages, in order.
pub open spec fn ops_of(msgs: Seq<MsgView>) -> Seq<OpView> {
    msgs.map_values(|msg: MsgView| msg.op)
}

/// The operations that add the given tasks, in order.
pub open spec fn adds_of(tasks: Seq<TaskView>) -> Seq<OpView> {
    tasks.map_values(|task: TaskView| OpView::Add(task))
}

/// The messages that deliver the given operations to `replica`, in order.
pub open spec fn msgs_to(ops: Seq<OpView>, replica: ReplicaUuid) -> Seq<MsgView> {
    ops.map_values(|op: OpView| MsgView { op, deliver_to: replica })
}

impl StoreView {
    /// The store that holds nothing.
    pub open spec fn empty() -> StoreView {
        StoreView { tasks: Seq::empty(), current: None, replicas: Seq::empty(), outbox: Seq::empty() }
    }

    /// The invariant of the store: well-formed tables, and a current pointer that refers to
    /// a stored row.
    pub open spec fn wf(self) -> bool {
        &&& rows_wf(self.tasks)
        &&& replicas_wf(self.replicas)
        &&& self.current matches Some(id) ==> self.has_row(id)
    }

    /// Whether a row has the number `id`.
    pub open spec fn has_row(self, id: int) -> bool {
        exists|i: int| 0 <= i < self.tasks.len() && (#[trigger] self.tasks[i]).id == id
    }

    /// Whether a task has the identifier `uuid`.
    pub open spec fn has_uuid(self, uuid: Uuid) -> bool {
        exists|i: int| 0 <= i < self.tasks.len() && (#[trigger] self.tasks[i]).task.uuid == uuid
    }

    /// The position of the row with the number `id`.
    pub open spec fn index_of_row(self, id: int) -> int {
        row_index(self.tasks, id)
    }

    /// The position of the task with the identifier `uuid`.
    pub open spec fn index_of_uuid(self, uuid: Uuid) -> int {
        uuid_index(self.tasks, uuid)
    }

    /// The row that the current pointer refers to.
    pub open spec fn current_row(self) -> Option<RowView> {
        match self.current {
            Some(id) => Some(self.tasks[self.index_of_row(id)]),
            None => None,
        }
    }

    /// The current task.
    pub open spec fn current_task(self) -> Option<TaskView> {
        match self.current_row() {
            Some(row) => Some(row.task),
            None => None,
        }
    }

    /// The number that the next row gets: one more than the largest in use.
    pub open spec fn next_row_id(self) -> int {
        if self.tasks.len() == 0 {
            1
        } else {
            self.tasks.last().id + 1
        }
    }

    /// The ordinary tasks (`reward` false) or the breaks (`reward` true), by ascending
    /// priority, those of equal priority in the order in which they were added.
    pub open spec fn rows_in(self, reward: bool) -> Seq<RowView> {
        by_priority(self.tasks, reward)
    }

    /// Every task of the store in the store's order: the ordinary tasks, then the breaks.
    pub open spec fn all_tasks(self) -> Seq<TaskView> {
        tasks_of(self.rows_in(false)) + tasks_of(self.rows_in(true))
    }

    /// The rows among which the next current task is chosen when `category` has been
    /// selected: the rows of that category, or those of the other one where it is empty.
    pub open spec fn candidates(self, category: Category) -> Seq<RowView> {
        let tasks = self.rows_in(false);
        let breaks = self.rows_in(true);
        if tasks.len() == 0 {
            breaks
        } else if breaks.len() == 0 {
            tasks
        } else {
            match category {
                Category::Break => breaks,
                Category::Task => tasks,
            }
        }
    }

    /// Whether a strategy with the choices `choices` may pick the candidate at `index` of
    /// the category `category`. The strategy is asked for the category only where both
    /// categories have tasks.
    pub open spec fn chooses(self, category: Category, index: int, choices: Choices) -> bool {
        &&& self.rows_in(false).len() > 0 && self.rows_in(true).len() > 0 ==> (choices.category)(category)
        &&& 0 <= index < self.candidates(category).len()
        &&& (choices.task)(tasks_of(self.candidates(category)), index)
    }

    /// Whether `after` is this store with a current task newly selected by a strategy with
    /// the choices `choices`: unchanged if no task is stored, else with the pointer on a
    /// candidate that the strategy may pick.
    pub open spec fn selects(self, after: StoreView, choices: Choices) -> bool {
        if self.tasks.len() == 0 {
            after == self
        } else {
            exists|category: Category, index: int| #[trigger]
                self.chooses(category, index, choices) && after == self.with_current(
                    Some(self.candidates(category)[index].id),
                )
        }
    }

    /// The pointer invariant: a store that holds a task has a current task.
    pub open spec fn pointer_holds(self) -> bool {
        self.tasks.len() > 0 ==> self.current is Some
    }

    /// Whether `after` is this store once a current task has been selected where there
    /// was none.
    pub open spec fn settles(self, after: StoreView, choices: Choices) -> bool {
        if self.current is Some {
            after == self
        } else {
            self.selects(after, choices)
        }
    }

    /// The store after its current task was completed: the pointer is empty and the task
    /// is gone.
    pub open spec fn completed(self) -> StoreView {
        match self.current {
            Some(id) => self.with_current(None).without_row(id),
            None => self,
        }
    }

    /// Whether `after` is this store with its current task skipped: the task has moved
    /// behind all others, and the pointer is on a newly selected task among the others, or
    /// empty if there are none.
    pub open spec fn skips(self, after: StoreView, choices: Choices) -> bool {
        match self.current_row() {
            Some(row) => exists|selected: StoreView| #[trigger]
                self.completed().selects(selected, choices) && after == selected.with_task(row.task),
            None => after == self,
        }
    }

    /// Whether skipping the current task must fail for want of a row number.
    pub open spec fn skip_exhausts(self) -> bool {
        self.current is Some && self.completed().next_row_id() > max_row_id()
    }

    /// Why `task` cannot be added, if it cannot.
    pub open spec fn add_error(self, task: TaskView) -> Option<DbError> {
        if self.has_uuid(task.uuid) {
            Some(DbError::DuplicateTask)
        } else if self.next_row_id() > max_row_id() {
            Some(DbError::RowIdsExhausted)
        } else {
            None
        }
    }

    /// The store with `task` added as its newest row.
    pub open spec fn with_task(self, task: TaskView) -> StoreView {
        StoreView { tasks: self.tasks.push(RowView { id: self.next_row_id(), task }), ..self }
    }

    /// The store with the current pointer set to `current`.
    pub open spec fn with_current(self, current: Option<int>) -> StoreView {
        StoreView { current, ..self }
    }

    /// Why the row with the number `id` cannot be removed, if it cannot.
    pub open spec fn remove_row_error(self, id: int) -> Option<DbError> {
        if !self.has_row(id) {
            Some(DbError::NoSuchRow)
        } else if self.current == Some(id) {
            Some(DbError::ForeignKey)
        } else {
            None
        }
    }

    /// The store without the row at position `index`.
    pub open spec fn without_index(self, index: int) -> StoreView {
        StoreView { tasks: self.tasks.remove(index), ..self }
    }

    /// The store without the row with the number `id`.
    pub open spec fn without_row(self, id: int) -> StoreView {
        self.without_index(self.index_of_row(id))
    }

    /// The store after a U-Set remove of `uuid`: the task is gone if it was stored, and the
    /// current pointer is empty if it referred to that task.
    pub open spec fn without_uuid(self, uuid: Uuid) -> StoreView {
        if self.has_uuid(uuid) {
            let index = self.index_of_uuid(uuid);
            let cleared = if self.current == Some(self.tasks[index].id) {
                self.with_current(None)
            } else {
                self
            };
            cleared.without_index(index)
        } else {
            self
        }
    }

    /// The task that a U-Set remove of `uuid` takes the current pointer from, if any.
    pub open spec fn removed_current(self, uuid: Uuid) -> Option<TaskView> {
        match self.current_task() {
            Some(task) => if task.uuid == uuid {
                Some(task)
            } else {
                None
            },
            None => None,
        }
    }

    /// Whether `replica` is registered.
    pub open spec fn is_registered(self, replica: ReplicaUuid) -> bool {
        exists|i: int| 0 <= i < self.replicas.len() && (#[trigger] self.replicas[i]).uuid == replica
    }

    /// Whether a server is registered under the address `url`.
    pub open spec fn has_server_url(self, url: Seq<char>) -> bool {
        exists|i: int|
            0 <= i < self.replicas.len() && (#[trigger] self.replicas[i]).api_url == Some(url)
    }

    /// Why `replica` cannot be registered under `api_url`, if it cannot.
    pub open spec fn register_error(self, replica: ReplicaUuid, api_url: Option<Seq<char>>) -> Option<DbError> {
        if self.is_registered(replica) {
            Some(DbError::DuplicateReplica)
        } else if api_url is Some && self.has_server_url(api_url->0) {
            Some(DbError::DuplicateServerUrl)
        } else {
            None
        }
    }

    /// The store with `replica` registered last, as a server if it has an address.
    pub open spec fn with_replica(self, replica: ReplicaUuid, api_url: Option<Seq<char>>) -> StoreView {
        StoreView { replicas: self.replicas.push(ReplicaView { uuid: replica, api_url }), ..self }
    }

    /// The registered servers, in the order in which they were registered.
    pub open spec fn servers(self) -> Seq<ReplicaView> {
        self.replicas.filter(|replica: ReplicaView| replica.api_url is Some)
    }

    /// The store with `msg` queued last.
    pub open spec fn with_msg(self, msg: MsgView) -> StoreView {
        StoreView { outbox: self.outbox.push(msg), ..self }
    }

    /// The store with `msgs` queued last, in order.
    pub open spec fn with_msgs(self, msgs: Seq<MsgView>) -> StoreView {
        StoreView { outbox: self.outbox + msgs, ..self }
    }

    /// The messages that wait for `replica`, in the order in which they were queued.
    pub open spec fn messages_for(self, replica: ReplicaUuid) -> Seq<MsgView> {
        self.outbox.filter(addressed_to(replica))
    }

    /// The store without the messages that wait for `replica`.
    pub open spec fn without_messages_for(self, replica: ReplicaUuid) -> StoreView {
        StoreView { outbox: self.outbox.filter(not_addressed_to(replica)), ..self }
    }

    /// A store with the same tasks and the same current pointer as a well-formed one keeps
    /// the pointer on a stored row.
    pub proof fn lemma_pointer_kept(self, other: StoreView)
        requires
            self.wf(),
            other.tasks == self.tasks,
            other.current == self.current,
        ensures
            other.current matches Some(id) ==> other.has_row(id),
            replicas_wf(other.replicas) ==> other.wf(),
    {
    }

    /// Strategies that allow the same choices select alike.
    pub proof fn lemma_selects_alike(self, after: StoreView, choices: Choices, other: Choices)
        requires
            choices.alike(other),
        ensures
            self.selects(after, choices) == self.selects(after, other),
    {
        if self.tasks.len() > 0 {
            if self.selects(after, choices) {
                let (category, index) = choose|category: Category, index: int| #[trigger]
                    self.chooses(category, index, choices) && after == self.with_current(
                        Some(self.candidates(category)[index].id),
                    );
                assert(self.chooses(category, index, other));
            }
            if self.selects(after, other) {
                let (category, index) = choose|category: Category, index: int| #[trigger]
                    self.chooses(category, index, other) && after == self.with_current(
                        Some(self.candidates(category)[index].id),
                    );
                assert(self.chooses(category, index, choices));
            }
        }
    }

    /// Strategies that allow the same choices select, settle and skip alike.
    pub proof fn lemma_choices_alike(self, after: StoreView, choices: Choices, other: Choices)
        requires
            choices.alike(other),
        ensures
            self.selects(after, choices) == self.selects(after, other),
            self.settles(after, choices) == self.settles(after, other),
            self.skips(after, choices) == self.skips(after, other),
    {
        self.lemma_selects_alike(after, choices, other);
        if let Some(row) = self.current_row() {
            if self.skips(after, choices) {
                let selected = choose|selected: StoreView| #[trigger]
                    self.completed().selects(selected, choices) && after == selected.with_task(row.task);
                self.completed().lemma_selects_alike(selected, choices, other);
            }
            if self.skips(after, other) {
                let selected = choose|selected: StoreView| #[trigger]
                    self.completed().selects(selected, other) && after == selected.with_task(row.task);
                self.completed().lemma_selects_alike(selected, choices, other);
            }
        }
    }

    /// Selecting a current task changes nothing but the current pointer.
    pub proof fn lemma_selects_keeps_tasks(self, after: StoreView, choices: Choices)
        requires
            self.selects(after, choices),
        ensures
            after.tasks == self.tasks,
            after.replicas == self.replicas,
            after.outbox == self.outbox,
    {
    }

    /// In a well-formed store a row is found at its own position, by its number and by the
    /// identifier of its task.
    pub proof fn lemma_index(self, index: int)
        requires
            self.wf(),
            0 <= index < self.tasks.len(),
        ensures
            self.has_row(self.tasks[index].id),
            self.index_of_row(self.tasks[index].id) == index,
            self.has_uuid(self.tasks[index].task.uuid),
            self.index_of_uuid(self.tasks[index].task.uuid) == index,
    {
    }

    /// Once a row is removed from a well-formed store, neither its number nor the identifier
    /// of its task is found there.
    pub proof fn lemma_removed(self, index: int)
        requires
            self.wf(),
            0 <= index < self.tasks.len(),
        ensures
            !self.without_index(index).has_row(self.tasks[index].id),
            !self.without_index(index).has_uuid(self.tasks[index].task.uuid),
            self.without_index(index).tasks.len() == self.tasks.len() - 1,
    {
        let rows = self.without_index(index).tasks;
        assert forall|k: int| 0 <= k < rows.len() implies (#[trigger] rows[k]).id != self.tasks[index].id
            && rows[k].task.uuid != self.tasks[index].task.uuid by {
            let k0 = if k < index { k } else { k + 1 };
            assert(rows[k] == self.tasks[k0]);
        }
    }

    /// In a well-formed store the current task has the identifier `uuid` exactly when the
    /// current pointer refers to the row that holds `uuid`.
    pub proof fn lemma_current_uuid(self, uuid: Uuid)
        requires
            self.wf(),
        ensures
            self.removed_current(uuid) is Some <==> self.has_uuid(uuid) && self.current == Some(
                self.tasks[self.index_of_uuid(uuid)].id,
            ),
            self.removed_current(uuid) is Some ==> self.removed_current(uuid) == Some(
                self.tasks[self.index_of_uuid(uuid)].task,
            ),
    {
    }
}

/// The insertion point lies within the rows, behind a row of no greater priority and
/// before none but rows of greater priority.
pub proof fn lemma_insertion_point(rows: Seq<RowView>, priority: u32)
    ensures
        0 <= insertion_point(rows, priority) <= rows.len(),
        insertion_point(rows, priority) > 0 ==> rows[insertion_point(rows, priority) - 1].task.priority
            <= priority,
        forall|k: int|
            insertion_point(rows, priority) <= k < rows.len() ==> (#[trigger] rows[k]).task.priority
                > priority,
    decreases rows.len(),
{
    if rows.len() > 0 && rows.last().task.priority > priority {
        lemma_insertion_point(rows.drop_last(), priority);
        let point = insertion_point(rows.drop_last(), priority);
        assert forall|k: int| point <= k < rows.len() implies (#[trigger] rows[k]).task.priority
            > priority by {
            if k < rows.len() - 1 {
                assert(rows.drop_last()[k] == rows[k]);
            }
        }
    }
}

/// The sorted rows of a category are exactly the rows of that category.
pub proof fn lemma_by_priority_contains(rows: Seq<RowView>, reward: bool, row: RowView)
    ensures
        by_priority(rows, reward).contains(row) <==> rows.contains(row) && row.task.reward == reward,
    decreases rows.len(),
{
    if rows.len() > 0 {
        let rest = rows.drop_last();
        let last = rows.last();
        let sorted = by_priority(rest, reward);
        lemma_by_priority_contains(rest, reward, row);
        assert(rows.contains(row) <==> rest.contains(row) || last == row) by {
            if rows.contains(row) {
                let k = choose|k: int| 0 <= k < rows.len() && rows[k] == row;
                if k < rows.len() - 1 {
                    assert(rest[k] == row);
                }
            }
        }
        if last.task.reward == reward {
            let point = insertion_point(sorted, last.task.priority);
            lemma_insertion_point(sorted, last.task.priority);
            let grown = sorted.insert(point, last);
            assert(grown.contains(row) <==> sorted.contains(row) || last == row) by {
                if sorted.contains(row) {
                    let k = choose|k: int| 0 <= k < sorted.len() && sorted[k] == row;
                    if k < point {
                        assert(grown[k] == row);
                    } else {
                        assert(grown[k + 1] == row);
                    }
                }
                if last == row {
                    assert(grown[point] == row);
                }
            }
        }
    }
}

/// Every row belongs to exactly one of the two categories.
pub proof fn lemma_by_priority_len(rows: Seq<RowView>)
    ensures
        by_priority(rows, false).len() + by_priority(rows, true).len() == rows.len(),
    decreases rows.len(),
{
    if rows.len() > 0 {
        lemma_by_priority_len(rows.drop_last());
        lemma_insertion_point(by_priority(rows.drop_last(), false), rows.last().task.priority);
        lemma_insertion_point(by_priority(rows.drop_last(), true), rows.last().task.priority);
    }
}

/// Whether rows ascend by priority, those of equal priority by row number.
pub open spec fn ascending(rows: Seq<RowView>) -> bool {
    forall|i: int, j: int|
        0 <= i < j < rows.len() ==> (#[trigger] rows[i]).task.priority < (#[trigger] rows[j]).task.priority
            || (rows[i].task.priority == rows[j].task.priority && rows[i].id < rows[j].id)
}

/// The sorted rows of a category ascend by priority, and those of equal priority by row
/// number, which is the order in which they were added.
pub proof fn lemma_by_priority_ascending(rows: Seq<RowView>, reward: bool)
    requires
        forall|i: int, j: int| 0 <= i < j < rows.len() ==> (#[trigger] rows[i]).id < (#[trigger] rows[j]).id,
    ensures
        ascending(by_priority(rows, reward)),
    decreases rows.len(),
{
    if rows.len() > 0 {
        let rest = rows.drop_last();
        let last = rows.last();
        let sorted = by_priority(rest, reward);
        assert forall|i: int, j: int| 0 <= i < j < rest.len() implies (#[trigger] rest[i]).id
            < (#[trigger] rest[j]).id by {}
        lemma_by_priority_ascending(rest, reward);
        if last.task.reward == reward {
            let point = insertion_point(sorted, last.task.priority);
            lemma_insertion_point(sorted, last.task.priority);
            let grown = sorted.insert(point, last);
            assert forall|k: int| 0 <= k < sorted.len() implies (#[trigger] sorted[k]).id < last.id by {
                lemma_by_priority_contains(rest, reward, sorted[k]);
            }
            assert forall|i: int, j: int| 0 <= i < j < grown.len() implies (#[trigger] grown[i]).task.priority
                < (#[trigger] grown[j]).task.priority || (grown[i].task.priority
                == grown[j].task.priority && grown[i].id < grown[j].id) by {
                // a row before the insertion point has no greater priority than the new
                // row and was added before it; a row behind it has a greater priority
            }
        }
    }
}

} // verus!

//! Adding a task.

use crate::commands::CommandError;
use crate::db::backend::DBBackend;
use crate::db::model::DbError;
use crate::db::model::StoreView;
use crate::db::transaction::DBTransaction;
use crate::ident::Uuid;
use crate::sync::strings_view;
use crate::task::parts_error;
use crate::task::Task;
use crate::task::TaskError;
use crate::task::TaskView;
use crate::text::parse_u32;
use crate::text::parsed_u32;
use vstd::prelude::*;
use vstd::string::StringExecFns;

verus! {

/// Why a command-line argument was refused.
#[derive(Debug, Clone, Copy, PartialEq, Eq, Structural)]
pub enum ArgError {
    /// The task description is empty.
    EmptyDescription,
    /// The priority is no decimal numeral of at most 32 bits.
    InvalidInteger,
    /// The priority is zero.
    ZeroPriority,
}

impl ArgError {
    /// The message that describes the error.
    pub open spec fn message(self) -> Seq<char> {
        match self {
            ArgError::EmptyDescription => "Task description cannot be empty."@,
            ArgError::InvalidInteger => "Unable to parse the task priority as valid integer."@,
            ArgError::ZeroPriority => "Task priority cannot be 0 because it would never be selected."@,
        }
    }

    /// The message that describes the error.
    pub fn to_string(&self) -> (message: String)
        ensures
            message@ == self.message(),
    {
        match self {
            ArgError::EmptyDescription => "Task description cannot be empty.".to_owned(),
            ArgError::InvalidInteger => "Unable to parse the task priority as valid integer.".to_owned(),
            ArgError::ZeroPriority => "Task priority cannot be 0 because it would never be selected.".to_owned(),
        }
    }
}

/// Reads a task description from a command-line argument: any text but the empty one.
pub fn is_str_nonempty(arg: &str) -> (r: Result<String, ArgError>)
    ensures
        match r {
            Ok(s) => arg@.len() > 0 && s@ == arg@,
            Err(e) => arg@.len() == 0 && e == ArgError::EmptyDescription,
        },
{
    if arg.is_empty() {
        return Err(ArgError::EmptyDescription);
    }
    Ok(arg.to_owned())
}

/// Reads a priority from a command-line argument: a decimal numeral of at most 32 bits
/// that is not zero.
pub fn is_u32_nonzero(arg: &str) -> (r: Result<u32, ArgError>)
    ensures
        r == match parsed_u32(arg@) {
            None => Err::<u32, ArgError>(ArgError::InvalidInteger),
            Some(p) => if p == 0 {
                Err::<u32, ArgError>(ArgError::ZeroPriority)
            } else {
                Ok::<u32, ArgError>(p)
            },
        },
{
    match parse_u32(arg) {
        None => Err(ArgError::InvalidInteger),
        Some(p) => {
            if p == 0 {
                return Err(ArgError::ZeroPriority);
            }
            Ok(p)
        },
    }
}

/// The parts of the task to add.
#[derive(Debug)]
pub struct Add {
    /// Whether the new entry is a break rather than an ordinary task.
    pub reward: bool,
    /// The task description.
    pub task: String,
    /// The priority, the weight with which the task is selected at random.
    pub priority: u32,
}

/// What is answered when a task has been added.
pub open spec fn added_text(description: Seq<char>) -> Seq<Seq<char>> {
    seq!["Task \""@ + description + "\" added to task list."@]
}

/// Adds `task` to the store and answers that it was added.
pub fn add_to_list<T: DBBackend>(tx: &mut T, task: &Task) -> (r: Result<Vec<String>, CommandError>)
    ensures
        final(tx).committed() == old(tx).committed(),
        final(tx).state().wf(),
        match old(tx).state().add_error(task@) {
            Some(e) => r == Err::<Vec<String>, CommandError>(CommandError::Db(e)) && final(tx).state() == old(
                tx,
            ).state(),
            None => {
                &&& final(tx).state() == old(tx).state().with_task(task@)
                &&& r matches Ok(output)
                &&& strings_view(output@) == added_text(task@.description)
            },
        },
{
    match tx.add_task(task) {
        Ok(()) => {},
        Err(e) => {
            return Err(CommandError::Db(e));
        },
    }
    let mut line = String::from_str("Task \"");
    line.append(task.task());
    line.append("\" added to task list.");
    let mut output: Vec<String> = Vec::new();
    output.push(line);
    Ok(output)
}

impl Add {
    /// The task that the command adds under the identifier `uuid`.
    pub open spec fn task_view(self, uuid: Uuid) -> TaskView {
        TaskView { description: self.task@, priority: self.priority, reward: self.reward, uuid }
    }

    /// What the command does to the store and what it answers when the new task gets the
    /// identifier `uuid`: the store has one more task and the answer names it, or the store
    /// refuses the task and nothing changes.
    pub open spec fn outcome_with(
        self,
        uuid: Uuid,
        before: StoreView,
        after: StoreView,
        r: Result<Vec<String>, CommandError>,
    ) -> bool {
        match before.add_error(self.task_view(uuid)) {
            Some(e) => r == Err::<Vec<String>, CommandError>(CommandError::Db(e)) && after == before,
            None => {
                &&& after == before.with_task(self.task_view(uuid))
                &&& r matches Ok(output)
                &&& strings_view(output@) == added_text(self.task@)
            },
        }
    }

    /// What the command does to the store and what it answers: parts that do not make a
    /// task are refused; else the task is added under a fresh random identifier.
    pub open spec fn outcome(self, before: StoreView, after: StoreView, r: Result<Vec<String>, CommandError>) -> bool {
        match parts_error(self.task@, self.priority) {
            Some(e) => r == Err::<Vec<String>, CommandError>(CommandError::Task(e)) && after == before,
            None => exists|uuid: Uuid|
                uuid.spec_version_num() == 4 && #[trigger] self.outcome_with(uuid, before, after, r),
        }
    }

    /// Makes a task with a fresh identifier from the parts and adds it to the store. Fails
    /// if the parts are invalid, see [`Task::from_parts`], and if the store refuses the task.
    pub fn run<T: DBBackend>(&self, tx: &mut T) -> (r: Result<Vec<String>, CommandError>)
        ensures
            final(tx).committed() == old(tx).committed(),
            old(tx).state().wf() ==> final(tx).state().wf(),
            self.outcome(old(tx).state(), final(tx).state(), r),
    {
        let task = match Task::new_from_parts(self.task.clone(), self.priority, self.reward) {
            Ok(task) => task,
            Err(e) => {
                return Err(CommandError::Task(e));
            },
        };
        let r = add_to_list(tx, &task);
        proof {
            assert(self.outcome_with(task@.uuid, old(tx).state(), tx.state(), r));
        }
        r
    }
}

} // verus!

//! The task value type.

use crate::ident::Uuid;
use crate::text::append_decimal;
use crate::text::append_right_aligned;
use crate::text::decimal;
use crate::text::right_aligned;
use vstd::prelude::*;
use vstd::std_specs::iter::IteratorSpec;
use vstd::string::StringExecFns;

verus! {

/// The two kinds of entry in the list: ordinary tasks, and breaks taken as a reward.
#[derive(Debug, Clone, Copy, PartialEq, Eq, Structural)]
pub enum Category {
    Break,
    Task,
}

/// Why a description and a priority do not make a task.
#[derive(Debug, Clone, Copy, PartialEq, Eq, Structural)]
pub enum TaskError {
    /// The description is empty.
    EmptyDescription,
    /// The priority is zero, so the task could never be selected.
    ZeroPriority,
    /// The description holds a NUL character.
    NulInDescription,
}

/// What a task is: its description, its weight, its category and its identity.
pub struct TaskView {
    pub description: Seq<char>,
    pub priority: u32,
    pub reward: bool,
    pub uuid: Uuid,
}

/// The first rule that a description and a priority break, if any.
pub open spec fn parts_error(description: Seq<char>, priority: u32) -> Option<TaskError> {
    if description.len() == 0 {
        Some(TaskError::EmptyDescription)
    } else if priority == 0 {
        Some(TaskError::ZeroPriority)
    } else if description.contains('\0') {
        Some(TaskError::NulInDescription)
    } else {
        None
    }
}

/// The name of a category, as it is shown to the user.
pub open spec fn category_name(reward: bool) -> Seq<char> {
    if reward {
        "Break"@
    } else {
        "Task"@
    }
}

impl TaskView {
    /// The task on one line: its priority, right-aligned in a column of `width` characters,
    /// and its description.
    pub open spec fn row_text(self, width: nat) -> Seq<char> {
        right_aligned(self.priority as nat, width) + " \t "@ + self.description
    }

    /// The task on three lines: description, priority and category.
    pub open spec fn long_text(self) -> Seq<char> {
        "Task: "@ + self.description + "\nPriority: "@ + decimal(self.priority as nat) + "\nCategory: "@
            + category_name(self.reward)
    }

    /// A task has a non-empty description without NUL characters and a positive priority.
    pub open spec fn valid(self) -> bool {
        parts_error(self.description, self.priority) is None
    }

    /// The category that the task belongs to.
    pub open spec fn category(self) -> Category {
        if self.reward {
            Category::Break
        } else {
            Category::Task
        }
    }
}

/// A task or a break. A value of this type always satisfies [`TaskView::valid`].
#[derive(Debug, PartialEq, Eq, Hash)]
pub struct Task {
    task: String,
    priority: u32,
    // `break` is a keyword
    reward: bool,
    uuid: Uuid,
}

impl View for Task {
    type V = TaskView;

    closed spec fn view(&self) -> TaskView {
        TaskView {
            description: self.task@,
            priority: self.priority,
            reward: self.reward,
            uuid: self.uuid,
        }
    }
}

impl Clone for Task {
    fn clone(&self) -> (res: Task)
        ensures
            res == *self,
    {
        proof {
            use_type_invariant(self);
        }
        Task {
            task: self.task.clone(),
            priority: self.priority,
            reward: self.reward,
            uuid: self.uuid,
        }
    }
}

impl TaskError {
    /// The message that describes the error.
    pub open spec fn message(self) -> Seq<char> {
        match self {
            TaskError::EmptyDescription => "Empty task description when creating task."@,
            TaskError::ZeroPriority => "Zero priority when creating task."@,
            TaskError::NulInDescription => "Null bytes in task description when creating task."@,
        }
    }

    /// The message that describes the error.
    pub fn to_string(&self) -> (message: String)
        ensures
            message@ == self.message(),
    {
        match self {
            TaskError::EmptyDescription => "Empty task description when creating task.".to_owned(),
            TaskError::ZeroPriority => "Zero priority when creating task.".to_owned(),
            TaskError::NulInDescription => "Null bytes in task description when creating task.".to_owned(),
        }
    }
}

/// Whether the string holds a NUL character.
fn has_nul(s: &str) -> (found: bool)
    ensures
        found <==> s@.contains('\0'),
{
    broadcast use vstd::string::group_string_axioms;

    let mut found = false;
    for c in it: s.chars()
        invariant
            it.seq() == s@,
            found <==> exists|j: int| 0 <= j < it.index() && s@[j] == '\0',
    {
        if c == '\0' {
            found = true;
        }
    }
    found
}

impl Task {
    /// What holds of every task: its parts are valid.
    #[verifier::type_invariant]
    pub open spec fn well_formed(self) -> bool {
        self@.valid()
    }

    /// Creates a task with a fresh random identifier. For the rules that the parts must meet
    /// see [`Task::from_parts`].
    pub fn new_from_parts(task: String, priority: u32, reward: bool) -> (r: Result<Task, TaskError>)
        ensures
            match r {
                Ok(t) => {
                    &&& parts_error(task@, priority) is None
                    &&& t@.description == task@
                    &&& t@.priority == priority
                    &&& t@.reward == reward
                    &&& t@.uuid.spec_version_num() == 4
                    &&& t@.valid()
                },
                Err(e) => parts_error(task@, priority) == Some(e),
            },
    {
        Task::from_parts(task, priority, reward, Uuid::new_v4())
    }

    /// Creates a task from its parts, as read from storage or from the network. The
    /// description may not be empty nor hold a NUL character, and the priority may not be
    /// zero; the first of these rules that is broken, in the order empty description, zero
    /// priority, NUL character, is the error.
    pub fn from_parts(task: String, priority: u32, reward: bool, uuid: Uuid) -> (r: Result<Task, TaskError>)
        ensures
            match r {
                Ok(t) => {
                    &&& parts_error(task@, priority) is None
                    &&& t@ == (TaskView { description: task@, priority, reward, uuid })
                    &&& t@.valid()
                },
                Err(e) => parts_error(task@, priority) == Some(e),
            },
    {
        if task.as_str().is_empty() {
            return Err(TaskError::EmptyDescription);
        }
        if priority == 0 {
            return Err(TaskError::ZeroPriority);
        }
        if has_nul(task.as_str()) {
            return Err(TaskError::NulInDescription);
        }
        Ok(Task { task, priority, reward, uuid })
    }

    /// The task description.
    pub fn task(&self) -> (description: &str)
        ensures
            description@ == self@.description,
            description@.len() > 0,
    {
        proof {
            use_type_invariant(self);
        }
        self.task.as_str()
    }

    /// The task priority, which is never zero.
    pub fn priority(&self) -> (priority: u32)
        ensures
            priority == self@.priority,
            priority > 0,
    {
        proof {
            use_type_invariant(self);
        }
        self.priority
    }

    /// The identifier of the task.
    pub fn uuid(&self) -> (uuid: &Uuid)
        ensures
            *uuid == self@.uuid,
    {
        &self.uuid
    }

    /// Whether the task is a break rather than an ordinary task.
    pub fn is_break(&self) -> (reward: bool)
        ensures
            reward == self@.reward,
    {
        self.reward
    }

    /// The category of the task.
    pub fn category(&self) -> (category: Category)
        ensures
            category == self@.category(),
    {
        if self.reward {
            Category::Break
        } else {
            Category::Task
        }
    }

    /// The name of the task's category.
    pub fn category_str(&self) -> (name: &'static str)
        ensures
            name@ == category_name(self@.reward),
    {
        match self.reward {
            true => "Break",
            false => "Task",
        }
    }

    /// The parts of the task: description, priority, whether it is a break, identifier.
    /// [`Task::from_parts`] makes the task again from them.
    pub fn into_parts(self) -> (parts: (String, u32, bool, Uuid))
        ensures
            parts.0@ == self@.description,
            parts.1 == self@.priority,
            parts.2 == self@.reward,
            parts.3 == self@.uuid,
            parts_error(parts.0@, parts.1) is None,
    {
        proof {
            use_type_invariant(&self);
        }
        (self.task, self.priority, self.reward, self.uuid)
    }

    /// Formats the task into a single line.
    pub fn format_row(&self, priority_column_width: usize) -> (row: String)
        ensures
            row@ == self@.row_text(priority_column_width as nat),
    {
        let mut row = String::new();
        append_right_aligned(&mut row, self.priority as u64, priority_column_width);
        row.append(" \t ");
        row.append(self.task.as_str());
        row
    }

    /// Formats the task into several lines.
    pub fn format_long(&self) -> (text: String)
        ensures
            text@ == self@.long_text(),
    {
        let mut text = String::from_str("Task: ");
        text.append(self.task.as_str());
        text.append("\nPriority: ");
        append_decimal(&mut text, self.priority as u64);
        text.append("\nCategory: ");
        text.append(self.category_str());
        text
    }
}

} // verus!

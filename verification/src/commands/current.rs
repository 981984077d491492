//! Showing the current task.

use crate::commands::no_tasks_text;
use crate::commands::CommandError;
use crate::db::backend::DBBackend;
use crate::db::model::StoreView;
use crate::db::transaction::DBTransaction;
use crate::sync::strings_view;
use crate::task::category_name;
use crate::task::TaskView;
use crate::text::append_decimal;
use crate::text::decimal;
use vstd::prelude::*;
use vstd::string::StringExecFns;

verus! {

/// The command that shows the current task.
#[derive(Debug)]
pub struct Current {
    /// Asks for the task with the highest priority instead of the selected task. The
    /// command takes the flag and does not act on it: it always shows the selected task.
    pub top: bool,
}

/// What is answered for the current task: its description, its category and its priority,
/// each on a line of its own.
pub open spec fn current_text(task: Option<TaskView>) -> Seq<Seq<char>> {
    match task {
        Some(task) => seq![
            task.description + "\n"@,
            "Category: "@ + category_name(task.reward),
            "Priority: "@ + decimal(task.priority as nat),
        ],
        None => no_tasks_text(),
    }
}

impl Current {
    /// What the command does to the store and what it answers: nothing changes, and the
    /// answer is the current task.
    pub open spec fn outcome(self, before: StoreView, after: StoreView, r: Result<Vec<String>, CommandError>) -> bool {
        &&& after == before
        &&& r matches Ok(output)
        &&& strings_view(output@) == current_text(before.current_task())
    }

    /// Answers with the current task, or that there are no tasks.
    pub fn run<T: DBBackend>(&self, tx: &mut T) -> (r: Result<Vec<String>, CommandError>)
        ensures
            final(tx).committed() == old(tx).committed(),
            final(tx).state().wf(),
            self.outcome(old(tx).state(), final(tx).state(), r),
    {
        let res = match tx.fetch_current_task() {
            Ok(res) => res,
            Err(e) => {
                return Err(CommandError::Db(e));
            },
        };
        let mut output: Vec<String> = Vec::new();
        if let Some(current) = res {
            let mut description = String::from_str(current.task());
            description.append("\n");
            let mut category = String::from_str("Category: ");
            category.append(current.category_str());
            let mut priority = String::from_str("Priority: ");
            append_decimal(&mut priority, current.priority() as u64);
            output.push(description);
            output.push(category);
            output.push(priority);
            assert(strings_view(output@) =~= current_text(Some(current@)));
        } else {
            output.push("No tasks.".to_owned());
            assert(strings_view(output@) =~= no_tasks_text());
        }
        Ok(output)
    }
}

} // verus!

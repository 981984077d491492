//! Completing the current task.

use crate::commands::no_tasks_text;
use crate::commands::CommandError;
use crate::db::backend::DBBackend;
use crate::db::model::StoreView;
use crate::db::transaction::DBTransaction;
use crate::sync::strings_view;
use crate::task::TaskView;
use vstd::prelude::*;
use vstd::string::StringExecFns;

verus! {

/// The command that marks the current task as completed.
#[derive(Debug)]
pub struct Complete;

/// What is answered when the current task has been completed.
pub open spec fn completed_text(task: Option<TaskView>) -> Seq<Seq<char>> {
    match task {
        Some(task) => seq!["Task \""@ + task.description + "\" completed.\n"@],
        None => no_tasks_text(),
    }
}

impl Complete {
    /// What the command does to the store and what it answers: the current task leaves
    /// the store, and the answer names it.
    pub open spec fn outcome(self, before: StoreView, after: StoreView, r: Result<Vec<String>, CommandError>) -> bool {
        &&& after == before.completed()
        &&& r matches Ok(output)
        &&& strings_view(output@) == completed_text(before.current_task())
    }

    /// Removes the current task from the store and answers with it, or that there are no
    /// tasks.
    pub fn run<T: DBBackend>(&self, tx: &mut T) -> (r: Result<Vec<String>, CommandError>)
        ensures
            final(tx).committed() == old(tx).committed(),
            final(tx).state().wf(),
            self.outcome(old(tx).state(), final(tx).state(), r),
    {
        let res = match tx.complete_current_task() {
            Ok(res) => res,
            Err(e) => {
                return Err(CommandError::Db(e));
            },
        };
        let mut output: Vec<String> = Vec::new();
        if let Some(completed_current) = res {
            let mut line = String::from_str("Task \"");
            line.append(completed_current.task());
            line.append("\" completed.\n");
            output.push(line);
            assert(strings_view(output@) =~= completed_text(Some(completed_current@)));
        } else {
            output.push("No tasks.".to_owned());
            assert(strings_view(output@) =~= no_tasks_text());
        }
        Ok(output)
    }
}

} // verus!

//! Skipping the current task.

use crate::commands::no_tasks_text;
use crate::commands::CommandError;
use crate::db::backend::DBBackend;
use crate::db::model::Choices;
use crate::db::model::DbError;
use crate::db::model::StoreView;
use crate::db::transaction::DBTransaction;
use crate::selection::choices_of;
use crate::selection::SelectionStrategy;
use crate::sync::strings_view;
use crate::task::TaskView;
use vstd::prelude::*;
use vstd::string::StringExecFns;

verus! {

/// The command that skips the current task and chooses a new one.
#[derive(Debug)]
pub struct Skip;

/// What is answered when the current task has been skipped: the new current task, or the
/// skipped one where it is the only task, or that there are no tasks.
pub open spec fn skipped_text(before: Option<TaskView>, after: Option<TaskView>) -> Seq<Seq<char>> {
    match after {
        Some(task) => seq!["Current task is now \""@ + task.description + "\".\n"@],
        None => match before {
            Some(task) => seq!["Current task is now \""@ + task.description + "\".\n"@],
            None => no_tasks_text(),
        },
    }
}

impl Skip {
    /// What the command does to the store and what it answers. Where the store has a row
    /// number left for the skipped task, the task moves behind the others, a new current task
    /// is selected among them by a strategy with the choices `choices`, and the answer names
    /// the task that is or will be current.
    /// Where it has none, the command fails with the skipped task missing from the store.
    pub open spec fn outcome(
        self,
        before: StoreView,
        after: StoreView,
        r: Result<Vec<String>, CommandError>,
        choices: Choices,
    ) -> bool {
        if before.skip_exhausts() {
            &&& r == Err::<Vec<String>, CommandError>(CommandError::Db(DbError::RowIdsExhausted))
            &&& before.completed().selects(after, choices)
        } else {
            &&& before.skips(after, choices)
            &&& r matches Ok(output)
            &&& strings_view(output@) == skipped_text(before.current_task(), after.current_task())
        }
    }

    /// Replaces the current task with a newly selected one among the other tasks, and
    /// answers with the new current task. Where the skipped task is the only one, the store
    /// is left without a current task, and the skipped task is the answer: it is the one
    /// that will be selected next.
    pub fn run<T: DBBackend, S: SelectionStrategy>(&self, tx: &mut T, selector: &mut S) -> (r: Result<Vec<String>, CommandError>)
        ensures
            final(tx).committed() == old(tx).committed(),
            final(tx).state().wf(),
            self.outcome(old(tx).state(), final(tx).state(), r, choices_of(old(selector))),
            choices_of(final(selector)).alike(choices_of(old(selector))),
    {
        let skipped_task_opt = match tx.fetch_current_task() {
            Ok(task) => task,
            Err(e) => {
                return Err(CommandError::Db(e));
            },
        };
        match tx.skip_current_task(selector) {
            Ok(()) => {},
            Err(e) => {
                return Err(CommandError::Db(e));
            },
        }
        let opt = match tx.fetch_current_task() {
            Ok(task) => task,
            Err(e) => {
                return Err(CommandError::Db(e));
            },
        };
        let mut output: Vec<String> = Vec::new();
        if let Some(current_task) = opt {
            let mut line = String::from_str("Current task is now \"");
            line.append(current_task.task());
            line.append("\".\n");
            output.push(line);
            assert(strings_view(output@) =~= skipped_text(old(tx).state().current_task(), Some(current_task@)));
        } else if let Some(skipped_task) = skipped_task_opt {
            // The skipped task was the only one. It is not selected here, but by whoever
            // runs the command.
            let mut line = String::from_str("Current task is now \"");
            line.append(skipped_task.task());
            line.append("\".\n");
            output.push(line);
            assert(strings_view(output@) =~= skipped_text(Some(skipped_task@), None));
        } else {
            output.push("No tasks.".to_owned());
            assert(strings_view(output@) =~= no_tasks_text());
        }
        Ok(output)
    }
}

} // verus!

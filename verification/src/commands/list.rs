//! Listing the tasks.

use crate::commands::CommandError;
use crate::db::backend::tasks_view;
use crate::db::backend::DBBackend;
use crate::db::model::StoreView;
use crate::db::transaction::DBTransaction;
use crate::sync::strings_view;
use crate::task::TaskView;
use vstd::prelude::*;

verus! {

/// The command that lists every task.
#[derive(Debug)]
pub struct List;

/// The width of the priority column of the list.
pub const PRIORITY_COLUMN_WIDTH: usize = 4;

/// The list: a heading, and a row for each task.
pub open spec fn list_text(tasks: Seq<TaskView>) -> Seq<Seq<char>> {
    seq!["Priority \t Task"@] + tasks.map_values(|task: TaskView| task.row_text(PRIORITY_COLUMN_WIDTH as nat))
}

impl List {
    /// What the command does to the store and what it answers: nothing changes, and the
    /// answer is the list of every task in the store's order.
    pub open spec fn outcome(self, before: StoreView, after: StoreView, r: Result<Vec<String>, CommandError>) -> bool {
        &&& after == before
        &&& r matches Ok(output)
        &&& strings_view(output@) == list_text(before.all_tasks())
    }

    /// Answers with a heading and one row for each task, in the store's order.
    pub fn run<T: DBBackend>(&self, tx: &mut T) -> (r: Result<Vec<String>, CommandError>)
        ensures
            final(tx).committed() == old(tx).committed(),
            final(tx).state().wf(),
            self.outcome(old(tx).state(), final(tx).state(), r),
    {
        let tasks = match tx.fetch_all_tasks() {
            Ok(tasks) => tasks,
            Err(e) => {
                return Err(CommandError::Db(e));
            },
        };
        let ghost listed = tasks_view(tasks@);
        let mut output: Vec<String> = Vec::new();
        output.push("Priority \t Task".to_owned());
        let mut i: usize = 0;
        while i < tasks.len()
            invariant
                i <= tasks.len(),
                listed == tasks_view(tasks@),
                strings_view(output@) == list_text(listed.take(i as int)),
            decreases tasks.len() - i,
        {
            let ghost held = strings_view(output@);
            output.push(tasks[i].format_row(PRIORITY_COLUMN_WIDTH));
            assert(list_text(listed.take(i as int + 1)) =~= held.push(
                listed[i as int].row_text(PRIORITY_COLUMN_WIDTH as nat),
            ));
            i += 1;
        }
        assert(listed.take(i as int) =~= listed);
        Ok(output)
    }
}

} // verus!

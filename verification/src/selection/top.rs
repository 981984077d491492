//! The strategy that always takes the task of the highest priority.

use crate::db::model::Choices;
use crate::selection::candidates_view;
use crate::selection::SelectionStrategy;
use crate::task::Category;
use crate::task::Task;
use crate::task::TaskView;
use vstd::prelude::*;

verus! {

/// Whether `index` is the last position in `tasks` that holds a task of the highest
/// priority.
pub open spec fn is_last_max(tasks: Seq<TaskView>, index: int) -> bool {
    &&& 0 <= index < tasks.len()
    &&& forall|j: int| 0 <= j < tasks.len() ==> (#[trigger] tasks[j]).priority <= tasks[index].priority
    &&& forall|j: int| index < j < tasks.len() ==> (#[trigger] tasks[j]).priority < tasks[index].priority
}

/// The last position that holds a task of the highest priority is unique.
pub proof fn lemma_last_max_unique(tasks: Seq<TaskView>, a: int, b: int)
    requires
        is_last_max(tasks, a),
        is_last_max(tasks, b),
    ensures
        a == b,
{
    if a < b {
        assert(tasks[b].priority < tasks[a].priority);
    } else if b < a {
        assert(tasks[a].priority < tasks[b].priority);
    }
}

/// What the strategy [`Top`] may choose: the category of ordinary tasks, and the last
/// candidate of the highest priority.
pub open spec fn top_choices() -> Choices {
    Choices {
        category: |category: Category| category == Category::Task,
        task: |tasks: Seq<TaskView>, index: int| is_last_max(tasks, index),
    }
}

/// The strategy that chooses the task of the highest priority. It always selects the
/// category of ordinary tasks; handed breaks, because there are no ordinary tasks, it chooses
/// the break of the highest priority. Among candidates of equal priority the last one wins.
pub struct Top {}

impl Top {
    /// The strategy.
    pub fn new() -> (top: Top) {
        Top {}
    }
}

impl SelectionStrategy for Top {
    open spec fn may_select_category(&self, category: Category) -> bool {
        category == Category::Task
    }

    open spec fn may_select_task(&self, tasks: Seq<TaskView>, index: int) -> bool {
        is_last_max(tasks, index)
    }

    fn select_category(&mut self) -> (category: Category)
        ensures
            category == Category::Task,
    {
        Category::Task
    }

    fn select_task(&mut self, tasks: &[&Task]) -> (index: usize)
        ensures
            is_last_max(candidates_view(tasks@), index as int),
    {
        let ghost views = candidates_view(tasks@);
        let mut best: usize = 0;
        let mut i: usize = 1;
        while i < tasks.len()
            invariant
                1 <= i <= tasks@.len(),
                views == candidates_view(tasks@),
                is_last_max(views.take(i as int), best as int),
            decreases tasks.len() - i,
        {
            assert(forall|j: int| 0 <= j < i ==> views.take(i as int + 1)[j] == views.take(i as int)[j]);
            if tasks[i].priority() >= tasks[best].priority() {
                best = i;
            }
            i += 1;
        }
        assert(views.take(i as int) =~= views);
        best
    }
}

} // verus!

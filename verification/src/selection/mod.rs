//! Strategies that pick the next current task.

pub mod top;
pub mod weighted_random;

use crate::db::model::Choices;
use crate::task::Category;
use crate::task::Task;
use crate::task::TaskView;
use vstd::prelude::*;

verus! {

/// The views of some candidate tasks, in order.
pub open spec fn candidates_view(tasks: Seq<&Task>) -> Seq<TaskView> {
    tasks.map_values(|task: &Task| task@)
}

/// What the strategy may choose.
pub open spec fn choices_of<S: SelectionStrategy + ?Sized>(selector: &S) -> Choices {
    Choices {
        category: |category: Category| selector.may_select_category(category),
        task: |tasks: Seq<TaskView>, index: int| selector.may_select_task(tasks, index),
    }
}

/// A way to pick the category of the next current task, and the task among the candidates
/// of that category. What a strategy may choose does not change as it is used.
pub trait SelectionStrategy {
    /// Whether the strategy may select `category`.
    spec fn may_select_category(&self, category: Category) -> bool;

    /// Whether the strategy may pick the candidate at `index` among `tasks`.
    spec fn may_select_task(&self, tasks: Seq<TaskView>, index: int) -> bool;

    /// Picks the category from which the next task is taken.
    fn select_category(&mut self) -> (category: Category)
        ensures
            old(self).may_select_category(category),
            forall|c: Category| #[trigger] final(self).may_select_category(c) == old(self).may_select_category(c),
            forall|t: Seq<TaskView>, i: int| #[trigger]
                final(self).may_select_task(t, i) == old(self).may_select_task(t, i),
    ;

    /// Picks one of the candidates and returns its position. There must be a candidate.
    fn select_task(&mut self, tasks: &[&Task]) -> (index: usize)
        requires
            tasks@.len() > 0,
        ensures
            index < tasks@.len(),
            old(self).may_select_task(candidates_view(tasks@), index as int),
            forall|c: Category| #[trigger] final(self).may_select_category(c) == old(self).may_select_category(c),
            forall|t: Seq<TaskView>, i: int| #[trigger]
                final(self).may_select_task(t, i) == old(self).may_select_task(t, i),
    ;
}

} // verus!

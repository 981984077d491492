//! The commands of the task list and what they answer.

pub mod add;
pub mod complete;
pub mod current;
pub mod list;
pub mod skip;

pub use self::add::Add;
pub use self::complete::Complete;
pub use self::current::Current;
pub use self::list::List;
pub use self::skip::Skip;

use crate::db::backend::DBBackend;
use crate::db::memory::MemoryBackend;
use crate::db::model::Choices;
use crate::db::model::DbError;
use crate::db::model::StoreView;
use crate::db::transaction::DBTransaction;
use crate::selection::choices_of;
use crate::selection::weighted_random::weighted_choices;
use crate::selection::weighted_random::Probability;
use crate::selection::weighted_random::WeightedRandom;
use crate::selection::SelectionStrategy;
use crate::sync::strings_view;
use crate::task::TaskError;
use vstd::prelude::*;

verus! {

/// Why a command failed.
#[derive(Debug, Clone, Copy, PartialEq, Eq, Structural)]
pub enum CommandError {
    /// The command's arguments do not make a task.
    Task(TaskError),
    /// The store refused.
    Db(DbError),
}

impl CommandError {
    /// The message that describes the error.
    pub fn to_string(&self) -> (message: String)
        ensures
            message@ == match *self {
                CommandError::Task(e) => e.message(),
                CommandError::Db(e) => e.message(),
            },
    {
        match self {
            CommandError::Task(e) => e.to_string(),
            CommandError::Db(e) => e.to_string(),
        }
    }
}

/// A command of the task list.
#[derive(Debug)]
pub enum TKZCmd {
    /// Add a task to the task list.
    Add(Add),
    /// List all tasks.
    List,
    /// Display the current task.
    Current(Current),
    /// Mark the current task as completed.
    Complete,
    /// Skip the current task and choose a new one. If there is only one task in the
    /// store, it is chosen again.
    Skip,
}

/// The command that is run when none is given: show the current task.
pub open spec fn default_command() -> TKZCmd {
    TKZCmd::Current(Current { top: false })
}

/// The arguments of the program: a command, or none.
#[derive(Debug)]
pub struct TKZArgs {
    /// If no command is given, the current task is shown.
    pub cmd: Option<TKZCmd>,
}

impl TKZArgs {
    /// The command to run: the one that was given, or the default command.
    pub fn cmd(self) -> (cmd: TKZCmd)
        ensures
            cmd == match self.cmd {
                Some(given) => given,
                None => default_command(),
            },
    {
        match self.cmd {
            Some(cmd) => cmd,
            None => TKZCmd::Current(Current { top: false }),
        }
    }
}

/// What is answered where there is nothing to show.
pub open spec fn no_tasks_text() -> Seq<Seq<char>> {
    seq!["No tasks."@]
}

/// Selects a current task if the store has none.
pub fn ensure_current_task<T: DBBackend, S: SelectionStrategy>(tx: &mut T, selector: &mut S) -> (r: Result<(), CommandError>)
    ensures
        final(tx).committed() == old(tx).committed(),
        final(tx).state().wf(),
        r is Ok,
        old(tx).state().settles(final(tx).state(), choices_of(old(selector))),
        final(tx).state().pointer_holds(),
        choices_of(final(selector)).alike(choices_of(old(selector))),
{
    let current_task = match tx.fetch_current_task() {
        Ok(current_task) => current_task,
        Err(e) => {
            return Err(CommandError::Db(e));
        },
    };
    if current_task.is_none() {
        match tx.select_current_task(selector) {
            Ok(()) => {},
            Err(e) => {
                return Err(CommandError::Db(e));
            },
        }
    }
    Ok(())
}

impl TKZCmd {
    /// What the command itself does to the store and what it answers, where a strategy
    /// with the choices `choices` selects.
    pub open spec fn outcome(
        self,
        before: StoreView,
        after: StoreView,
        r: Result<Vec<String>, CommandError>,
        choices: Choices,
    ) -> bool {
        match self {
            TKZCmd::Add(add) => add.outcome(before, after, r),
            TKZCmd::List => List.outcome(before, after, r),
            TKZCmd::Current(current) => current.outcome(before, after, r),
            TKZCmd::Complete => Complete.outcome(before, after, r),
            TKZCmd::Skip => Skip.outcome(before, after, r, choices),
        }
    }

    /// Runs the command on the store in a transaction of its own, with the weighted random
    /// selection strategy, and commits what it has done if it succeeds. A command that fails
    /// leaves the store as it was.
    pub fn dispatch(&self, db: &mut MemoryBackend, break_probability: Probability) -> (r: Result<Vec<String>, CommandError>)
        ensures
            exists|after: StoreView, settled: StoreView| #[trigger]
                self.outcome(old(db)@, after, r, weighted_choices(break_probability)) && #[trigger] after.settles(
                    settled,
                    weighted_choices(break_probability),
                ) && final(db)@ == if r is Ok {
                    settled
                } else {
                    old(db)@
                },
            r is Ok ==> final(db)@.wf() && final(db)@.pointer_holds(),
    {
        let ghost before = db@;
        let tx = db.transaction();
        let mut selector = WeightedRandom::new(break_probability);
        let ghost choices = choices_of(&selector);
        let res = self.run(tx, &mut selector);
        proof {
            let wanted = weighted_choices(break_probability);
            assert(choices.alike(wanted));
            let after = choose|after: StoreView| #[trigger]
                self.outcome(before, after, res, choices) && after.settles(tx.state(), choices);
            after.lemma_choices_alike(tx.state(), choices, wanted);
            before.lemma_choices_alike(after, choices, wanted);
            before.completed().lemma_choices_alike(after, choices, wanted);
            assert(self.outcome(before, after, res, wanted) && after.settles(tx.state(), wanted));
        }
        if res.is_ok() {
            match tx.finish() {
                Ok(()) => {},
                Err(e) => {
                    return Err(CommandError::Db(e));
                },
            }
        }
        res
    }

    /// Runs the command and then selects a current task if the store is left without one,
    /// so that the pointer invariant holds whatever the command did. Returns what the
    /// command answers.
    pub fn run<T: DBBackend, S: SelectionStrategy>(&self, tx: &mut T, selector: &mut S) -> (r: Result<Vec<String>, CommandError>)
        ensures
            final(tx).committed() == old(tx).committed(),
            final(tx).state().wf(),
            final(tx).state().pointer_holds(),
            exists|after: StoreView| #[trigger]
                self.outcome(old(tx).state(), after, r, choices_of(old(selector))) && after.settles(
                    final(tx).state(),
                    choices_of(old(selector)),
                ),
            choices_of(final(selector)).alike(choices_of(old(selector))),
    {
        let output = match self {
            TKZCmd::Add(add) => add.run(tx),
            TKZCmd::List => {
                let l = List;
                l.run(tx)
            },
            TKZCmd::Current(current) => current.run(tx),
            TKZCmd::Complete => {
                let c = Complete;
                c.run(tx)
            },
            TKZCmd::Skip => {
                let s = Skip;
                s.run(tx, selector)
            },
        };
        let ghost after = tx.state();
        let ghost later = choices_of(selector);
        assert(self.outcome(old(tx).state(), after, output, choices_of(old(selector))));
        let settled = ensure_current_task(tx, selector);
        proof {
            after.lemma_choices_alike(tx.state(), later, choices_of(old(selector)));
        }
        match settled {
            Ok(()) => output,
            Err(e) => Err(e),
        }
    }
}

} // verus!

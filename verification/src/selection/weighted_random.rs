//! The strategy that draws the task at random, weighted by priority.

use crate::db::model::Choices;
use crate::selection::candidates_view;
use crate::selection::SelectionStrategy;
use crate::task::Category;
use crate::task::Task;
use crate::task::TaskView;
use rand::distributions::Distribution;
use rand::distributions::WeightedIndex;
use rand::rngs::ThreadRng;
use rand::Rng;
use vstd::prelude::*;

verus! {

/// The random number generator of the current thread, as `rand` hands it out. Nothing is
/// known of the values that it produces.
#[verifier::external_type_specification]
#[verifier::external_body]
pub struct ExThreadRng(ThreadRng);

/// Why two numbers are no probability.
#[derive(Debug, Clone, Copy, PartialEq, Eq, Structural)]
pub enum ProbabilityError {
    /// The denominator is zero.
    ZeroDenominator,
    /// The numerator is greater than the denominator, so the ratio is greater than one.
    GreaterThanOne,
}

/// A probability, held as the ratio of two integers: a number between zero and one.
#[derive(Debug, Clone, Copy, PartialEq, Eq, Structural)]
pub struct Probability {
    numerator: u32,
    denominator: u32,
}

/// What keeps `numerator / denominator` from being a probability, if anything does.
pub open spec fn ratio_error(numerator: u32, denominator: u32) -> Option<ProbabilityError> {
    if denominator == 0 {
        Some(ProbabilityError::ZeroDenominator)
    } else if numerator > denominator {
        Some(ProbabilityError::GreaterThanOne)
    } else {
        None
    }
}

impl Probability {
    /// What holds of every probability: it lies between zero and one.
    #[verifier::type_invariant]
    pub closed spec fn well_formed(self) -> bool {
        ratio_error(self.numerator, self.denominator) is None
    }

    /// The numerator of the ratio.
    pub closed spec fn spec_numerator(self) -> u32 {
        self.numerator
    }

    /// The denominator of the ratio.
    pub closed spec fn spec_denominator(self) -> u32 {
        self.denominator
    }

    /// Whether the probability is zero.
    pub open spec fn is_never(self) -> bool {
        self.spec_numerator() == 0
    }

    /// Whether the probability is one.
    pub open spec fn is_always(self) -> bool {
        self.spec_numerator() == self.spec_denominator()
    }

    /// Whether a draw with this probability of a break may come out as `category`: an
    /// ordinary task unless the probability is one, a break unless it is zero.
    pub open spec fn allows(self, category: Category) -> bool {
        &&& self.is_never() ==> category == Category::Task
        &&& self.is_always() ==> category == Category::Break
    }

    /// The probability `numerator / denominator`.
    pub fn new(numerator: u32, denominator: u32) -> (r: Result<Probability, ProbabilityError>)
        ensures
            match r {
                Ok(p) => {
                    &&& ratio_error(numerator, denominator) is None
                    &&& p.spec_numerator() == numerator
                    &&& p.spec_denominator() == denominator
                },
                Err(e) => ratio_error(numerator, denominator) == Some(e),
            },
    {
        if denominator == 0 {
            Err(ProbabilityError::ZeroDenominator)
        } else if numerator > denominator {
            Err(ProbabilityError::GreaterThanOne)
        } else {
            Ok(Probability { numerator, denominator })
        }
    }

    /// The probability zero.
    pub fn never() -> (p: Probability)
        ensures
            p.is_never(),
            !p.is_always(),
    {
        Probability { numerator: 0, denominator: 1 }
    }

    /// The probability one.
    pub fn always() -> (p: Probability)
        ensures
            p.is_always(),
            !p.is_never(),
    {
        Probability { numerator: 1, denominator: 1 }
    }

    /// The numerator of the ratio.
    pub fn numerator(&self) -> (numerator: u32)
        ensures
            numerator == self.spec_numerator(),
            numerator <= self.spec_denominator(),
    {
        proof {
            use_type_invariant(self);
        }
        self.numerator
    }

    /// The denominator of the ratio, which is never zero.
    pub fn denominator(&self) -> (denominator: u32)
        ensures
            denominator == self.spec_denominator(),
            denominator > 0,
    {
        proof {
            use_type_invariant(self);
        }
        self.denominator
    }
}

impl ProbabilityError {
    /// The message that describes the error.
    pub fn to_string(&self) -> (message: String)
        ensures
            message@ == match *self {
                ProbabilityError::ZeroDenominator => "probability has a zero denominator"@,
                ProbabilityError::GreaterThanOne => "probability must not be greater than 1"@,
            },
    {
        match self {
            ProbabilityError::ZeroDenominator => "probability has a zero denominator".to_owned(),
            ProbabilityError::GreaterThanOne => "probability must not be greater than 1".to_owned(),
        }
    }
}

/// The sum of some weights.
pub open spec fn total_weight(weights: Seq<u128>) -> nat
    decreases weights.len(),
{
    if weights.len() == 0 {
        0
    } else {
        total_weight(weights.drop_last()) + weights.last() as nat
    }
}

/// Weights that are each at most `bound` sum to at most their number times `bound`.
pub proof fn lemma_total_weight_bound(weights: Seq<u128>, bound: nat)
    requires
        forall|i: int| 0 <= i < weights.len() ==> weights[i] <= bound,
    ensures
        total_weight(weights) <= weights.len() * bound,
    decreases weights.len(),
{
    if weights.len() > 0 {
        lemma_total_weight_bound(weights.drop_last(), bound);
        assert(weights.len() * bound == (weights.len() - 1) * bound + bound) by (nonlinear_arith);
    }
}

/// The weights with which candidates are drawn: the priority of each, in order.
pub open spec fn weights_of(tasks: Seq<TaskView>) -> Seq<u128> {
    tasks.map_values(|task: TaskView| task.priority as u128)
}

/// The weights with which the candidates are drawn: the priority of each, in order. No
/// weight is zero, since no priority is.
pub fn selection_weights(tasks: &[&Task]) -> (weights: Vec<u128>)
    ensures
        weights@ == weights_of(candidates_view(tasks@)),
        weights@.len() == tasks@.len(),
        forall|j: int| 0 <= j < weights@.len() ==> 0 < #[trigger] weights@[j] <= u32::MAX,
{
    let ghost wanted = weights_of(candidates_view(tasks@));
    let mut weights: Vec<u128> = Vec::new();
    let mut i: usize = 0;
    while i < tasks.len()
        invariant
            i <= tasks@.len(),
            wanted == weights_of(candidates_view(tasks@)),
            weights@ == wanted.take(i as int),
            forall|j: int| 0 <= j < i ==> 0 < #[trigger] weights@[j] <= u32::MAX,
        decreases tasks.len() - i,
    {
        weights.push(tasks[i].priority() as u128);
        assert(weights@ =~= wanted.take(i as int + 1));
        i += 1;
    }
    assert(wanted.take(i as int) =~= wanted);
    weights
}

/// Calls `rand::thread_rng`, which hands out the generator of the current thread.
#[verifier::external_body]
fn thread_generator() -> ThreadRng {
    rand::thread_rng()
}

/// Calls `rand::Rng::gen_ratio`, which returns `true` with a chance of `numerator` in
/// `denominator`: always when the two are equal, never when `numerator` is zero. It panics
/// on a zero denominator and on a numerator greater than the denominator.
#[verifier::external_body]
fn draw_ratio(rng: &mut ThreadRng, numerator: u32, denominator: u32) -> (hit: bool)
    requires
        denominator > 0,
        numerator <= denominator,
    ensures
        numerator == 0 ==> !hit,
        numerator == denominator ==> hit,
{
    rng.gen_ratio(numerator, denominator)
}

/// Calls `rand::distributions::WeightedIndex::new` on the weights and samples the
/// distribution once. The sample is a position in `weights`, drawn with a chance proportional
/// to the weight there, so never one of weight zero. `new` fails on no weights and on a total
/// of zero, and its running sum must not overflow.
#[verifier::external_body]
fn draw_weighted(rng: &mut ThreadRng, weights: &Vec<u128>) -> (index: usize)
    requires
        weights@.len() > 0,
        0 < total_weight(weights@) <= u128::MAX,
    ensures
        index < weights@.len(),
        weights@[index as int] > 0,
{
    WeightedIndex::new(weights).unwrap().sample(rng)
}

/// What the weighted random strategy may choose when it selects a break with the
/// probability `break_probability`: any candidate, and either category unless the
/// probability is zero or one.
pub open spec fn weighted_choices(break_probability: Probability) -> Choices {
    Choices {
        category: |category: Category| break_probability.allows(category),
        task: |tasks: Seq<TaskView>, index: int| 0 <= index < tasks.len(),
    }
}

/// The strategy that chooses at random: the category of breaks with a fixed probability,
/// and a task among the candidates with a chance proportional to its priority.
pub struct WeightedRandom {
    rng: ThreadRng,
    break_probability: Probability,
}

impl WeightedRandom {
    /// A strategy that selects the category of breaks with the given probability.
    pub fn new(break_probability: Probability) -> (selector: WeightedRandom)
        ensures
            selector.break_probability() == break_probability,
    {
        WeightedRandom { rng: thread_generator(), break_probability }
    }

    /// The probability with which the category of breaks is selected.
    pub closed spec fn break_probability(&self) -> Probability {
        self.break_probability
    }
}

impl SelectionStrategy for WeightedRandom {
    open spec fn may_select_category(&self, category: Category) -> bool {
        self.break_probability().allows(category)
    }

    open spec fn may_select_task(&self, tasks: Seq<TaskView>, index: int) -> bool {
        0 <= index < tasks.len()
    }

    fn select_category(&mut self) -> (category: Category)
        ensures
            final(self).break_probability() == old(self).break_probability(),
            old(self).break_probability().is_never() ==> category == Category::Task,
            old(self).break_probability().is_always() ==> category == Category::Break,
    {
        let numerator = self.break_probability.numerator();
        let denominator = self.break_probability.denominator();
        match draw_ratio(&mut self.rng, numerator, denominator) {
            true => Category::Break,
            false => Category::Task,
        }
    }

    fn select_task(&mut self, tasks: &[&Task]) -> (index: usize)
        ensures
            final(self).break_probability() == old(self).break_probability(),
    {
        let weights = selection_weights(tasks);
        let count = weights.len();
        proof {
            assert(total_weight(weights@) >= weights@[count - 1]);
            lemma_total_weight_bound(weights@, u32::MAX as nat);
            assert(weights@.len() * (u32::MAX as nat) <= u128::MAX) by (nonlinear_arith)
                requires
                    weights@.len() <= usize::MAX,
            ;
        }
        draw_weighted(&mut self.rng, &weights)
    }
}

} // verus!

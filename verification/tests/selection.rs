use taskerizer::ident::Uuid;
use taskerizer::selection::top::Top;
use taskerizer::selection::weighted_random::selection_weights;
use taskerizer::selection::weighted_random::Probability;
use taskerizer::selection::weighted_random::ProbabilityError;
use taskerizer::selection::weighted_random::WeightedRandom;
use taskerizer::selection::SelectionStrategy;
use taskerizer::task::Category;
use taskerizer::task::Task;

fn example_task_1() -> Task {
    Task::from_parts(
        "test task please ignore".to_string(),
        1,
        false,
        Uuid::from_bytes([0, 0, 0, 0, 0, 0, 0, 0, 0, 0, 0, 0, 0, 0, 0, 1]),
    )
    .unwrap()
}

fn example_task_2() -> Task {
    Task::from_parts(
        "test task please ignore 2".to_string(),
        12,
        false,
        Uuid::from_bytes([0, 0, 0, 0, 0, 0, 0, 0, 0, 0, 0, 0, 0, 0, 0, 2]),
    )
    .unwrap()
}

fn example_task_3() -> Task {
    Task::from_parts(
        "just another task".to_string(),
        2,
        false,
        Uuid::from_bytes([0, 0, 0, 0, 0, 0, 0, 0, 0, 0, 0, 0, 0, 0, 0, 3]),
    )
    .unwrap()
}

#[test]
fn test_selection_selection_top_works() {
    let mut selector = Top::new();

    let tasks = [example_task_1()];
    let task_refs: Vec<&Task> = tasks.iter().collect();

    let item = selector.select_task(&task_refs);

    assert_eq!(item, 0);
}

#[test]
fn test_selection_top_equal_priorities_3() {
    let mut selector = Top::new();

    // same task so they have the same priorities
    let tasks = vec![example_task_1(), example_task_1(), example_task_1()];
    let task_refs: Vec<&Task> = tasks.iter().collect();

    // if they're equal, Top selects the last one
    assert_eq!(selector.select_task(&task_refs), 2);
}

#[test]
fn test_selection_top_nonequal_priorities() {
    let mut selector = Top::new();

    // task 2: priority 12
    // task 3: priority 2
    let tasks = vec![example_task_2(), example_task_3()];
    let task_refs: Vec<&Task> = tasks.iter().collect();

    // 12 > 2
    assert_eq!(selector.select_task(&task_refs), 0);
}

#[test]
fn test_selection_top_sorted_selects_last() {
    let mut selector = Top::new();

    // always selects Category::Task
    assert_eq!(selector.select_category(), Category::Task);

    let tasks = vec![example_task_3(), example_task_1(), example_task_2(), example_task_1(), example_task_3()];
    let mut task_refs: Vec<&Task> = tasks.iter().collect();
    task_refs.sort_by_key(|t| t.priority());

    // sorted by priority, the last element is always the one selected
    while !task_refs.is_empty() {
        assert_eq!(selector.select_task(&task_refs), task_refs.len() - 1);
        task_refs.pop();
    }
}

#[test]
fn test_selection_top_last_maximum_in_the_middle() {
    let mut selector = Top::new();
    let tasks = vec![example_task_2(), example_task_1(), example_task_2(), example_task_3()];
    let task_refs: Vec<&Task> = tasks.iter().collect();
    assert_eq!(selector.select_task(&task_refs), 2);
}

// TBH we don't really need to test this, it's just a sanity check
#[test]
fn test_select_category_works() {
    let mut selector = WeightedRandom::new(Probability::always());
    assert_eq!(Category::Break, selector.select_category());

    let mut selector = WeightedRandom::new(Probability::never());
    assert_eq!(Category::Task, selector.select_category());
}

#[test]
fn test_weighted_random_works() {
    let mut selector = WeightedRandom::new(Probability::never());

    let tasks = vec![example_task_1()];
    let task_refs: Vec<&Task> = tasks.iter().collect();

    let item = selector.select_task(&task_refs);

    assert_eq!(item, 0);
}

#[test]
fn test_weighted_random_equal_priorities() {
    let mut selector = WeightedRandom::new(Probability::never());

    // same task so they have the same priorities
    let tasks = vec![example_task_1(), example_task_1()];
    let task_refs: Vec<&Task> = tasks.iter().collect();

    let mut counts: [usize; 2] = [0, 0];
    for _ in 0..100 {
        counts[selector.select_task(&task_refs)] += 1;
    }

    // "20" is basically arbitrary but it's unlikely to happen so it's good enough.

    assert!(counts[0] > 0, "First task was not chosen at all");
    assert!(counts[0] >= 20, "First task was not chosen enough");

    assert!(counts[1] > 0, "Second task was not chosen at all");
    assert!(counts[1] >= 20, "Second task was not chosen enough");
}

#[test]
fn test_weighted_random_equal_priorities_3() {
    let mut selector = WeightedRandom::new(Probability::never());

    // same task so they have the same priorities
    let tasks = vec![example_task_1(), example_task_1(), example_task_1()];
    let task_refs: Vec<&Task> = tasks.iter().collect();

    let mut counts: [usize; 3] = [0, 0, 0];
    for _ in 0..100 {
        counts[selector.select_task(&task_refs)] += 1;
    }

    // "10" is basically arbitrary but it's unlikely to happen so it's good enough.

    assert!(counts[0] > 0, "First task was not chosen at all");
    assert!(counts[0] >= 10, "First task was not chosen enough");

    assert!(counts[1] > 0, "Second task was not chosen at all");
    assert!(counts[1] >= 10, "Second task was not chosen enough");

    assert!(counts[2] > 0, "Third task was not chosen at all");
    assert!(counts[2] >= 10, "Third task was not chosen enough");
}

#[test]
fn test_weighted_random_nonequal_priorities() {
    let mut selector = WeightedRandom::new(Probability::never());

    // task 2: priority 12
    // task 3: priority 2
    let tasks = vec![example_task_2(), example_task_3()];
    let task_refs: Vec<&Task> = tasks.iter().collect();

    let mut counts: [usize; 2] = [0, 0];
    for _ in 0..100 {
        counts[selector.select_task(&task_refs)] += 1;
    }

    // completely arbitrary heuristic: 1/4*n*p

    // 100*12/14*1/4 = 21
    assert!(counts[0] > 0, "Second task was not chosen at all");
    assert!(counts[0] >= 20, "Second task was not chosen enough");

    // 100*2/14*1/4 = 3
    assert!(counts[1] > 0, "Third task was not chosen at all");
    assert!(counts[1] >= 2, "Third task was not chosen enough");
}

#[test]
fn test_weighted_random_index_is_always_valid() {
    let uuid = Uuid::from_bytes([3; 16]);
    let tasks: Vec<Task> = (1..=40u32)
        .map(|priority| Task::from_parts(format!("task {}", priority), priority, priority % 3 == 0, uuid).unwrap())
        .collect();
    for (numerator, denominator) in [(0, 1), (1, 1), (1, 2), (33, 100), (u32::MAX, u32::MAX)] {
        let mut selector = WeightedRandom::new(Probability::new(numerator, denominator).unwrap());
        for len in 1..=tasks.len() {
            let task_refs: Vec<&Task> = tasks[..len].iter().collect();
            for _ in 0..20 {
                assert!(selector.select_task(&task_refs) < len);
            }
        }
    }
}

#[test]
fn test_weighted_random_favours_the_heavier_task() {
    let mut selector = WeightedRandom::new(Probability::never());
    let uuid = Uuid::from_bytes([4; 16]);
    let light = Task::from_parts("light".to_string(), 1, false, uuid).unwrap();
    let heavy = Task::from_parts("heavy".to_string(), 99, false, uuid).unwrap();
    let task_refs: Vec<&Task> = vec![&light, &heavy];
    let mut counts: [usize; 2] = [0, 0];
    for _ in 0..2000 {
        counts[selector.select_task(&task_refs)] += 1;
    }
    assert!(counts[1] > counts[0], "The task of weight 1 was favoured over the task of weight 99: {:?}", counts);
}

#[test]
fn test_weighted_random_max_priorities() {
    let mut selector = WeightedRandom::new(Probability::never());
    let uuid = Uuid::from_bytes([5; 16]);
    let tasks: Vec<Task> =
        (0..8).map(|i| Task::from_parts(format!("task {}", i), u32::MAX, false, uuid).unwrap()).collect();
    let task_refs: Vec<&Task> = tasks.iter().collect();
    let mut counts = [0usize; 8];
    for _ in 0..800 {
        counts[selector.select_task(&task_refs)] += 1;
    }
    for count in counts {
        assert!(count > 0);
    }
}

#[test]
fn test_select_category_extremes_repeat() {
    let mut always = WeightedRandom::new(Probability::new(7, 7).unwrap());
    let mut never = WeightedRandom::new(Probability::new(0, 7).unwrap());
    for _ in 0..200 {
        assert_eq!(always.select_category(), Category::Break);
        assert_eq!(never.select_category(), Category::Task);
    }
}

#[test]
fn test_select_category_draws_both() {
    let mut selector = WeightedRandom::new(Probability::new(1, 2).unwrap());
    let mut breaks = 0;
    for _ in 0..400 {
        if selector.select_category() == Category::Break {
            breaks += 1;
        }
    }
    assert!(breaks > 100 && breaks < 300, "a fair coin came up a break {} times of 400", breaks);
}

#[test]
fn test_probability_new() {
    let p = Probability::new(33, 100).unwrap();
    assert_eq!(p.numerator(), 33);
    assert_eq!(p.denominator(), 100);
    assert_eq!(Probability::never().numerator(), 0);
    assert_eq!(Probability::always().numerator(), Probability::always().denominator());
    assert_eq!(Probability::new(1, 0), Err(ProbabilityError::ZeroDenominator));
    assert_eq!(Probability::new(0, 0), Err(ProbabilityError::ZeroDenominator));
    assert_eq!(Probability::new(11, 10), Err(ProbabilityError::GreaterThanOne));
    assert!(Probability::new(10, 10).is_ok());
    assert!(Probability::new(0, 10).is_ok());
    assert_eq!(ProbabilityError::GreaterThanOne.to_string(), "probability must not be greater than 1");
    assert_eq!(ProbabilityError::ZeroDenominator.to_string(), "probability has a zero denominator");
}

#[test]
fn test_selection_weights_are_the_priorities() {
    let uuid = Uuid::from_bytes([6; 16]);
    let heavy = Task::from_parts("heavy".to_string(), u32::MAX, true, uuid).unwrap();
    let tasks = vec![example_task_2(), example_task_3(), heavy, example_task_1()];
    let task_refs: Vec<&Task> = tasks.iter().collect();
    assert_eq!(selection_weights(&task_refs), vec![12u128, 2, 4294967295, 1]);
    assert_eq!(selection_weights(&task_refs[..1]), vec![12u128]);
    assert_eq!(selection_weights(&[]), Vec::<u128>::new());
}

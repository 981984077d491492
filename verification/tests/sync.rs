use std::collections::HashSet;
use taskerizer::db::DbError;
use taskerizer::selection::top::Top;
use taskerizer::sync::apply_all_uset_ops;
use taskerizer::sync::apply_incoming_uset_ops;
use taskerizer::db::DBBackend;
use taskerizer::db::DBTransaction;
use taskerizer::db::MemoryBackend;
use taskerizer::ident::ReplicaUuid;
use taskerizer::ident::Uuid;
use taskerizer::sync::USetOp;
use taskerizer::task::Task;

#[allow(dead_code)]
fn example_task_1() -> Task {
    Task::from_parts(
        "test task please ignore".to_string(),
        1,
        false,
        Uuid::from_bytes([0, 0, 0, 0, 0, 0, 0, 0, 0, 0, 0, 0, 0, 0, 0, 1]),
    )
    .unwrap()
}

#[allow(dead_code)]
fn example_task_1_dup() -> Task {
    Task::from_parts(
        "test task please ignore".to_string(),
        1,
        false,
        Uuid::from_bytes([0, 0, 0, 0, 0, 0, 0, 0, 0, 0, 0, 1, 0, 0, 0, 1]),
    )
    .unwrap()
}

#[allow(dead_code)]
fn example_task_2() -> Task {
    Task::from_parts(
        "test task please ignore 2".to_string(),
        12,
        false,
        Uuid::from_bytes([0, 0, 0, 0, 0, 0, 0, 0, 0, 0, 0, 0, 0, 0, 0, 2]),
    )
    .unwrap()
}

#[allow(dead_code)]
fn example_task_3() -> Task {
    Task::from_parts(
        "just another task".to_string(),
        2,
        false,
        Uuid::from_bytes([0, 0, 0, 0, 0, 0, 0, 0, 0, 0, 0, 0, 0, 0, 0, 3]),
    )
    .unwrap()
}

#[allow(dead_code)]
fn example_task_break_1() -> Task {
    Task::from_parts(
        "another tesk task with break set".to_string(),
        1,
        true,
        Uuid::from_bytes([0, 0, 0, 0, 0, 0, 0, 0, 0, 0, 0, 0, 0, 0, 1, 0]),
    )
    .unwrap()
}

#[allow(dead_code)]
fn example_task_break_2() -> Task {
    Task::from_parts(
        "break with high priority".to_string(),
        99,
        true,
        Uuid::from_bytes([0, 0, 0, 0, 0, 0, 0, 0, 0, 0, 0, 0, 0, 0, 2, 0]),
    )
    .unwrap()
}

#[allow(dead_code)]
fn example_task_list() -> Vec<Task> {
    vec![example_task_1(), example_task_break_1(), example_task_2(), example_task_break_2()]
}

#[allow(dead_code)]
fn example_replica_1() -> ReplicaUuid {
    Uuid::from_bytes([0, 0, 0, 0, 0, 0, 0, 0, 0, 0, 0, 0, 1, 2, 3, 4])
}

#[allow(dead_code)]
fn example_replica_2() -> ReplicaUuid {
    Uuid::from_bytes([0, 0, 0, 0, 0, 0, 0, 0, 0, 0, 0, 0, 1, 2, 3, 5])
}

#[allow(dead_code)]
fn example_replica_3() -> ReplicaUuid {
    Uuid::from_bytes([0, 0, 0, 0, 0, 0, 0, 0, 0, 0, 0, 0, 1, 2, 3, 6])
}

#[allow(dead_code)]
fn example_add_uset_op_1() -> USetOp {
    USetOp::Add(example_task_1())
}

#[allow(dead_code)]
fn example_add_uset_op_2() -> USetOp {
    USetOp::Add(example_task_2())
}

#[allow(dead_code)]
fn example_remove_uset_op_1() -> USetOp {
    USetOp::Remove(example_task_1().uuid().clone())
}

#[allow(dead_code)]
fn example_remove_uset_op_2() -> USetOp {
    USetOp::Remove(example_task_2().uuid().clone())
}

#[allow(dead_code)]
fn open_test_db() -> MemoryBackend {
    MemoryBackend::open_in_memory()
}

#[test]
fn test_uset_add_task_1() {
    let mut db = open_test_db();
    let tx = db.transaction();

    let task = example_task_1();

    let op = USetOp::Add(task.clone());
    let res = op.apply_to_db(tx);
    assert!(res.is_ok(), "Could not apply add operation to db: {}", res.unwrap_err().to_string());

    let db_tasks = tx.fetch_all_tasks().expect("Couldn't fetch tasks");
    assert_eq!(db_tasks[0], task);
}

#[test]
fn test_uset_add_break_1() {
    let mut db = open_test_db();
    let tx = db.transaction();

    let task = example_task_break_1();

    let op = USetOp::Add(task.clone());
    let res = op.apply_to_db(tx);
    assert!(res.is_ok(), "Could not apply add operation to db: {}", res.unwrap_err().to_string());

    let db_tasks = tx.fetch_all_tasks().expect("Could not get tasks");
    assert_eq!(db_tasks[0], task);
}

#[test]
fn test_uset_add_error_dup_uuid() {
    let mut db = open_test_db();
    let tx = db.transaction();

    let task = example_task_2();

    // add task to db
    tx.add_task(&task).expect("Failed adding test");

    // add via USetOp
    let op = USetOp::Add(task.clone());
    let res = op.apply_to_db(tx);

    assert!(res.is_err(), "No error adding task with duplicate uuid to db");
    let err = res.unwrap_err();
    assert!(
        err.to_string().contains("UNIQUE constraint failed: tasks.uuid"),
        "Incorrect error message when inserting duplicate task: got {}",
        err.to_string()
    );
}

#[test]
fn test_uset_add_list_keeps_every_task() {
    let mut db = open_test_db();
    let tx = db.transaction();
    let tasks = example_task_list();
    for task in &tasks {
        let report = USetOp::Add(task.clone()).apply_to_db(tx).unwrap();
        assert!(report.is_empty());
    }
    let db_tasks: HashSet<Task> = tx.fetch_all_tasks().unwrap().into_iter().collect();
    assert_eq!(db_tasks, tasks.into_iter().collect::<HashSet<Task>>());
}

#[test]
fn test_uset_apply_all_empty() {
    let mut db = open_test_db();
    let tx = db.transaction();

    let tasks: Vec<USetOp> = Vec::new();

    let res = apply_all_uset_ops(tx, &tasks);
    assert!(res.is_ok(), "Error applying all uset ops: {}", res.unwrap_err().to_string());

    let messages = res.unwrap();
    assert!(messages.is_empty(), "Messages resulted from applying no uset ops: {:?}", messages);
}

#[test]
fn test_uset_apply_all_2() {
    let mut db = open_test_db();
    let tx = db.transaction();

    let tasks = vec![USetOp::Add(example_task_1()), USetOp::Add(example_task_2())];

    let res = apply_all_uset_ops(tx, &tasks);
    assert!(res.is_ok(), "Error applying all uset ops: {}", res.unwrap_err().to_string());

    let messages = res.unwrap();
    assert!(messages.is_empty(), "Messages resulted from applying only add uset ops: {:?}", messages);

    tx.finish().unwrap();

    let tx = db.transaction();
    let tasks = tx.fetch_all_tasks().expect("Failed to fetch all tasks");
    assert_eq!(tasks.len(), 2);
    assert_eq!(tasks[0], example_task_1());
    assert_eq!(tasks[1], example_task_2());
}

#[test]
fn test_uset_apply_all_duplicate_error() {
    let mut db = open_test_db();
    let tx = db.transaction();

    let tasks = vec![USetOp::Add(example_task_1()), USetOp::Add(example_task_1())];

    let res = apply_all_uset_ops(tx, &tasks);
    assert!(res.is_err(), "No error when adding duplicate tasks with the same id");
    assert_eq!(res.unwrap_err(), DbError::DuplicateTask);

    // transaction is aborted, check that there were no changes to the database
    drop(tx);

    let tx = db.transaction();
    let tasks = tx.fetch_all_tasks().expect("Failed to fetch all tasks");
    assert!(tasks.is_empty(), "Tasks in database after aborted transaction: {:?}", tasks);
}

#[test]
fn test_uset_apply_all_duplicate_error_keeps_existing_task() {
    let mut db = open_test_db();

    // add initial task
    let tx = db.transaction();
    tx.add_task(&example_task_2()).unwrap();
    tx.finish().unwrap();

    let tx = db.transaction();
    let tasks = vec![USetOp::Add(example_task_3()), USetOp::Add(example_task_1()), USetOp::Add(example_task_1())];

    let res = apply_all_uset_ops(tx, &tasks);
    assert!(res.is_err(), "No error when adding duplicate tasks with the same id");

    // transaction is aborted, check that there were no changes to the database
    drop(tx);

    let tx = db.transaction();
    let tasks = tx.fetch_all_tasks().expect("Failed to fetch all tasks");
    assert_eq!(tasks, vec![example_task_2(),]);
}

#[test]
fn test_uset_apply_all_remove_non_existant() {
    let mut db = open_test_db();
    let tx = db.transaction();

    let tasks = vec![USetOp::Add(example_task_1()), example_remove_uset_op_2()];

    let res = apply_all_uset_ops(tx, &tasks);
    assert!(res.is_ok(), "Unexpected error when removing non-existant task via uset op");

    tx.finish().unwrap();

    let tx = db.transaction();
    let tasks = tx.fetch_all_tasks().expect("Failed to fetch all tasks");
    assert_eq!(tasks.len(), 1);
    assert_eq!(tasks[0], example_task_1());
}

#[test]
fn test_uset_apply_all_remove_current_task() {
    let mut db = open_test_db();
    let tx = db.transaction();
    let mut top = Top::new();

    tx.add_task(&example_task_2()).expect("Failed to add task");
    tx.select_current_task(&mut top).expect("Failed to select current task");

    let tasks = vec![example_remove_uset_op_2(), USetOp::Add(example_task_1())];

    let res = apply_all_uset_ops(tx, &tasks);
    assert!(res.is_ok(), "Unexpected error when removing non-existant task via uset op");

    let messages = res.unwrap();
    assert_eq!(messages.len(), 1);
    assert!(messages[0].contains("Current task removed during sync:"));
    assert!(messages[0].contains(example_task_2().task()));
    assert_eq!(messages[0], "Current task removed during sync: test task please ignore 2");
}

#[test]
fn test_uset_apply_all_stops_at_first_failure() {
    let mut db = open_test_db();
    let tx = db.transaction();
    let ops = vec![
        USetOp::Add(example_task_1()),
        USetOp::Add(example_task_2()),
        USetOp::Add(example_task_1()),
        USetOp::Add(example_task_3()),
    ];
    assert_eq!(apply_all_uset_ops(tx, &ops), Err(DbError::DuplicateTask));
    // what came before the failure is in the transaction, what came after is not
    assert_eq!(tx.fetch_all_tasks().unwrap(), vec![example_task_1(), example_task_2()]);
    tx.rollback().unwrap();
    assert!(tx.fetch_all_tasks().unwrap().is_empty());
}

#[test]
fn test_uset_apply_all_add_after_remove_of_same_task() {
    let mut db = open_test_db();
    let tx = db.transaction();
    let ops = vec![example_add_uset_op_1(), example_remove_uset_op_1(), example_add_uset_op_1()];
    assert_eq!(apply_all_uset_ops(tx, &ops), Ok(Vec::new()));
    assert_eq!(tx.fetch_all_tasks().unwrap(), vec![example_task_1()]);
}

#[test]
fn test_uset_remove_task_local_1() {
    let mut db = open_test_db();
    let tx = db.transaction();

    let task = example_task_1();

    // add task directly to db
    tx.add_task(&task).expect("failed to add task");

    // remove via USetOp
    let op = USetOp::Remove(task.uuid().clone());
    let res = op.apply_to_db(tx);
    assert!(res.is_ok(), "Could not remove task from database via USetOp: {}", res.unwrap_err().to_string());

    let db_tasks = tx.fetch_all_tasks().expect("Couldn't get tasks");
    assert!(db_tasks.is_empty(), "DB contained task after removing only task: {:?}", db_tasks);
}

#[test]
fn test_uset_remove_task_remote_1() {
    let mut db = open_test_db();
    let tx = db.transaction();

    let task = example_task_1();

    let add_op = USetOp::Add(task.clone());
    add_op.apply_to_db(tx).expect("Failed to add task via uset");

    // remove via USetOp
    let remove_op = USetOp::Remove(task.uuid().clone());
    let res = remove_op.apply_to_db(tx);
    assert!(res.is_ok(), "Could not remove task from database via USetOp: {}", res.unwrap_err().to_string());

    let report = res.unwrap();
    assert!(
        report.is_empty(),
        "Report contained something even though we didn't remove current task: {:?}",
        report
    );

    let db_tasks = tx.fetch_all_tasks().expect("Couldn't get tasks");
    assert!(db_tasks.is_empty(), "DB contained task after removing only task: {:?}", db_tasks);
}

#[test]
fn test_uset_remove_current() {
    let mut selector = Top::new();
    let mut db = open_test_db();
    let tx = db.transaction();

    let task = example_task_1();
    tx.add_task(&task).expect("Failed removing task");

    tx.select_current_task(&mut selector).expect("Failed choosing current task");

    let res = USetOp::apply_remove_to_db(tx, task.uuid());
    assert!(res.is_ok(), "Failed removing task via USetOp: {}", res.unwrap_err().to_string());

    let opt = res.unwrap();
    assert!(opt.is_some(), "No task returned from remove op even though we set current");

    let removed_current = opt.unwrap();
    assert_eq!(removed_current, task);
}

#[test]
fn test_uset_remove_non_current() {
    let mut selector = Top::new();
    let mut db = open_test_db();
    let tx = db.transaction();

    // add and set to current
    let task1 = example_task_1();
    tx.add_task(&task1).expect("Failed adding task");
    tx.select_current_task(&mut selector).expect("Failed choosing current task");

    // add second task that will not be current
    let task2 = example_task_2();
    tx.add_task(&task2).expect("Failed adding task");

    let res = USetOp::apply_remove_to_db(tx, task2.uuid());
    assert!(res.is_ok(), "Failed removing task via USetOp: {}", res.unwrap_err().to_string());

    let opt = res.unwrap();
    assert!(
        opt.is_none(),
        "Task returned from remove op even though we didn't remove current: {:?}",
        opt.unwrap()
    );
}

#[test]
fn test_uset_remove_twice_is_no_error() {
    let mut db = open_test_db();
    let tx = db.transaction();
    for task in example_task_list() {
        tx.add_task(&task).unwrap();
    }
    let op = example_remove_uset_op_1();
    assert_eq!(op.apply_to_db(tx), Ok(Vec::new()));
    let after_first = tx.fetch_all_tasks().unwrap();
    assert_eq!(after_first.len(), 3);
    assert_eq!(op.apply_to_db(tx), Ok(Vec::new()));
    assert_eq!(tx.fetch_all_tasks().unwrap(), after_first);
    assert_eq!(op.clone().apply_to_db(tx), Ok(Vec::new()));
    assert_eq!(tx.fetch_all_tasks().unwrap(), after_first);
}

#[test]
fn test_uset_apply_add_to_db() {
    let mut db = open_test_db();
    let tx = db.transaction();
    assert_eq!(USetOp::apply_add_to_db(tx, &example_task_1()), Ok(()));
    assert_eq!(USetOp::apply_add_to_db(tx, &example_task_1()), Err(DbError::DuplicateTask));
    assert_eq!(tx.fetch_all_tasks().unwrap(), vec![example_task_1()]);
}

#[test]
fn test_uset_apply_incoming_selects_a_replacement() {
    let mut selector = Top::new();
    let mut db = open_test_db();
    let tx = db.transaction();
    for task in example_task_list() {
        tx.add_task(&task).unwrap();
    }
    tx.select_current_task(&mut selector).unwrap();
    assert_eq!(tx.fetch_current_task().unwrap(), Some(example_task_2()));

    // the current task is removed remotely: the user is told, and another task is selected
    let ops = vec![example_remove_uset_op_2(), USetOp::Add(example_task_3())];
    let messages = apply_incoming_uset_ops(tx, &ops, &mut selector).unwrap();
    assert_eq!(messages, vec!["Current task removed during sync: test task please ignore 2".to_string()]);
    assert_eq!(tx.fetch_current_task().unwrap(), Some(example_task_3()));

    // a current task that stays is left alone
    let messages = apply_incoming_uset_ops(tx, &[example_remove_uset_op_1()], &mut selector).unwrap();
    assert!(messages.is_empty());
    assert_eq!(tx.fetch_current_task().unwrap(), Some(example_task_3()));

    // a failure is reported as it is
    assert_eq!(
        apply_incoming_uset_ops(tx, &[USetOp::Add(example_task_3())], &mut selector),
        Err(DbError::DuplicateTask)
    );
}

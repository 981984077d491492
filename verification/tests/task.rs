use taskerizer::db::transaction::SqlBlobUuid;
use taskerizer::ident::Uuid;
use taskerizer::ident::UuidError;
use taskerizer::task::Category;
use taskerizer::task::Task;
use taskerizer::task::TaskError;

fn example_task_1() -> Task {
    Task::from_parts(
        "test task please ignore".to_string(),
        1,
        false,
        Uuid::from_bytes([0, 0, 0, 0, 0, 0, 0, 0, 0, 0, 0, 0, 0, 0, 0, 1]),
    )
    .unwrap()
}

fn example_task_2() -> Task {
    Task::from_parts(
        "test task please ignore 2".to_string(),
        12,
        false,
        Uuid::from_bytes([0, 0, 0, 0, 0, 0, 0, 0, 0, 0, 0, 0, 0, 0, 0, 2]),
    )
    .unwrap()
}

fn example_task_3() -> Task {
    Task::from_parts(
        "just another task".to_string(),
        2,
        false,
        Uuid::from_bytes([0, 0, 0, 0, 0, 0, 0, 0, 0, 0, 0, 0, 0, 0, 0, 3]),
    )
    .unwrap()
}

fn example_task_break_2() -> Task {
    Task::from_parts(
        "break with high priority".to_string(),
        99,
        true,
        Uuid::from_bytes([0, 0, 0, 0, 0, 0, 0, 0, 0, 0, 0, 0, 0, 0, 2, 0]),
    )
    .unwrap()
}

#[test]
fn test_task_fmt_row_1() {
    let task = example_task_1();
    let row = task.format_row(1);
    assert_eq!(row, "1 \t test task please ignore");

    let row = task.format_row(2);
    assert_eq!(row, " 1 \t test task please ignore");

    let row = task.format_row(4);
    assert_eq!(row, "   1 \t test task please ignore");
}

#[test]
fn test_task_fmt_row_2() {
    let task = example_task_2();
    let row = task.format_row(1);
    assert_eq!(row, "12 \t test task please ignore 2");

    let row = task.format_row(2);
    assert_eq!(row, "12 \t test task please ignore 2");

    let row = task.format_row(4);
    assert_eq!(row, "  12 \t test task please ignore 2");
}

#[test]
fn test_task_fmt_long_1() {
    let task = example_task_1();
    let long = task.format_long();
    assert_eq!(
        long,
        "Task: test task please ignore\n\
    Priority: 1\n\
    Category: Task"
    )
}

#[test]
fn test_task_fmt_long_2() {
    let task = example_task_3();
    let long = task.format_long();
    assert_eq!(
        long,
        "Task: just another task\n\
    Priority: 2\n\
    Category: Task"
    )
}

#[test]
fn test_task_fmt_long_3() {
    let task = example_task_break_2();
    let long = task.format_long();
    assert_eq!(
        long,
        "Task: break with high priority\n\
    Priority: 99\n\
    Category: Break"
    )
}

#[test]
fn test_task_nonempty_task() {
    let res = Task::new_from_parts("".to_string(), 1, false);
    assert!(res.is_err(), "Task was valid with empty task description");
    let err = res.unwrap_err();
    assert!(
        err.to_string().contains("Empty task description"),
        "Incorrect error with empty task description: {}",
        err.to_string()
    );
}

#[test]
fn test_task_zero_priority() {
    let res = Task::new_from_parts("a".to_string(), 0, false);
    assert!(res.is_err(), "Task was valid with zero priority");
    let err = res.unwrap_err();
    assert!(
        err.to_string().contains("Zero priority"),
        "Incorrect error with zero priority: {}",
        err.to_string()
    );
}

#[test]
fn test_task_null_desc() {
    let res = Task::new_from_parts("\x00".to_string(), 1, false);
    assert!(res.is_err(), "Task was valid with null byte in string");
    let err = res.unwrap_err();
    assert!(err.to_string().contains("Null byte"), "Incorrect error with null byte: {}", err.to_string());

    // null bytes not at beginning
    let res = Task::new_from_parts("test task \x00 \x00 test".to_string(), 1, false);
    assert!(res.is_err(), "Task was valid with null byte in string");
    let err = res.unwrap_err();
    assert!(err.to_string().contains("Null byte"), "Incorrect error with null byte: {}", err.to_string());

    // null byte just at end
    let res = Task::new_from_parts("test task \x00".to_string(), 1, false);
    assert!(res.is_err(), "Task was valid with null byte in string");
    let err = res.unwrap_err();
    assert!(err.to_string().contains("Null byte"), "Incorrect error with null byte: {}", err.to_string());
}

#[test]
fn test_task_uuid_not_equal() {
    let res = Task::new_from_parts("hello".to_string(), 1, false);
    assert!(res.is_ok(), "Task was invalid with normal parts");
    let task1 = res.unwrap();

    let res = Task::new_from_parts("hello".to_string(), 1, false);
    assert!(res.is_ok(), "Task was invalid with normal parts");
    let task2 = res.unwrap();

    assert!(task1.uuid() != task2.uuid(), "Task uuids were the same");
    assert!(task1 != task2, "Tasks with same parts but different uuids are equal");
}

#[test]
fn test_task_from_parts_keeps_parts() {
    let uuid = Uuid::from_bytes([0, 0, 0, 0, 0, 0, 0, 0, 0, 0, 0, 0, 0, 0, 0, 1]);
    let task = Task::from_parts("test task please ignore".to_string(), 1, false, uuid).unwrap();
    assert_eq!(task.task(), "test task please ignore");
    assert_eq!(task.priority(), 1);
    assert!(!task.is_break());
    assert_eq!(*task.uuid(), uuid);
    assert_eq!(task.category(), Category::Task);
    assert_eq!(task.category_str(), "Task");
    assert_eq!(example_task_break_2().category(), Category::Break);
    assert_eq!(example_task_break_2().category_str(), "Break");
}

#[test]
fn test_task_from_parts_reports_first_broken_rule() {
    let uuid = Uuid::from_bytes([7; 16]);
    // empty description comes before zero priority
    assert_eq!(Task::from_parts(String::new(), 0, false, uuid).unwrap_err(), TaskError::EmptyDescription);
    // zero priority comes before NUL
    assert_eq!(Task::from_parts("a\x00".to_string(), 0, false, uuid).unwrap_err(), TaskError::ZeroPriority);
    assert_eq!(Task::from_parts("a\x00".to_string(), 1, true, uuid).unwrap_err(), TaskError::NulInDescription);
    assert!(Task::from_parts("a".to_string(), u32::MAX, true, uuid).is_ok());
}

#[test]
fn test_task_error_messages() {
    assert_eq!(TaskError::EmptyDescription.to_string(), "Empty task description when creating task.");
    assert_eq!(TaskError::ZeroPriority.to_string(), "Zero priority when creating task.");
    assert_eq!(TaskError::NulInDescription.to_string(), "Null bytes in task description when creating task.");
}

#[test]
fn test_task_parts_round_trip() {
    for task in [example_task_1(), example_task_2(), example_task_3(), example_task_break_2()] {
        let (description, priority, reward, uuid) = task.clone().into_parts();
        let again = Task::from_parts(description, priority, reward, uuid).unwrap();
        assert_eq!(again, task);
        assert_eq!(again.uuid(), task.uuid());
        assert_eq!(again.task(), task.task());
        assert_eq!(again.priority(), task.priority());
        assert_eq!(again.is_break(), task.is_break());
    }
}

#[test]
fn test_task_wire_round_trip() {
    // the task as it travels: a JSON object of its four parts
    for task in [example_task_1(), example_task_2(), example_task_3(), example_task_break_2()] {
        let mut object = serde_json::Map::new();
        object.insert("task".to_string(), serde_json::Value::from(task.task()));
        object.insert("priority".to_string(), serde_json::Value::from(task.priority()));
        object.insert("reward".to_string(), serde_json::Value::from(task.is_break()));
        object.insert("uuid".to_string(), serde_json::Value::from(task.uuid().to_string()));
        let text = serde_json::to_string(&serde_json::Value::Object(object)).unwrap();

        let value: serde_json::Value = serde_json::from_str(&text).unwrap();
        let description = value["task"].as_str().unwrap().to_string();
        let priority = value["priority"].as_u64().unwrap() as u32;
        let reward = value["reward"].as_bool().unwrap();
        let uuid = uuid::Uuid::parse_str(value["uuid"].as_str().unwrap()).unwrap();
        let again = Task::from_parts(description, priority, reward, Uuid::from_bytes(*uuid.as_bytes())).unwrap();
        assert_eq!(again, task);
    }
}

#[test]
fn test_task_format_row_wide_priority() {
    let uuid = Uuid::from_bytes([9; 16]);
    let task = Task::from_parts("t".to_string(), u32::MAX, false, uuid).unwrap();
    assert_eq!(task.format_row(4), "4294967295 \t t");
    assert_eq!(task.format_row(12), "  4294967295 \t t");
    assert_eq!(task.format_row(0), "4294967295 \t t");
    let task = Task::from_parts("t".to_string(), 100, false, uuid).unwrap();
    assert_eq!(task.format_row(4), " 100 \t t");
    assert_eq!(task.format_long(), "Task: t\nPriority: 100\nCategory: Task");
}

#[test]
fn test_uuid_bytes_round_trip() {
    let bytes = [0xa1, 0xa2, 0xa3, 0xa4, 0xb1, 0xb2, 0xc1, 0xc2, 0xd1, 0xd2, 0xd3, 0xd4, 0xd5, 0xd6, 0xd7, 0xd8];
    let id = Uuid::from_bytes(bytes);
    assert_eq!(id.as_bytes(), bytes);
    assert_eq!(Uuid::from_slice(&bytes), Ok(id));
    assert_eq!(id.to_u128_le(), 0xd8d7d6d5d4d3d2d1c2c1b2b1a4a3a2a1u128);
    assert_eq!(Uuid::from_u128_le(0xd8d7d6d5d4d3d2d1c2c1b2b1a4a3a2a1u128), id);
    // the same bytes as the uuid crate holds them
    assert_eq!(*uuid::Uuid::from_bytes(bytes).as_bytes(), id.as_bytes());
    assert_eq!(uuid::Uuid::from_bytes(bytes).to_u128_le(), id.to_u128_le());
}

#[test]
fn test_uuid_from_slice_wrong_length() {
    assert_eq!(Uuid::from_slice(&[]), Err(UuidError::InvalidLength(0)));
    assert_eq!(Uuid::from_slice(&[0; 15]), Err(UuidError::InvalidLength(15)));
    assert_eq!(Uuid::from_slice(&[0; 17]), Err(UuidError::InvalidLength(17)));
    assert!(Uuid::from_slice(&[0; 16]).is_ok());
    assert_eq!(UuidError::InvalidLength(15).to_string(), "Invalid number of bytes for UUID: 15 bytes != 16.");
    assert_eq!(UuidError::InvalidLength(0).to_string(), "Invalid number of bytes for UUID: 0 bytes != 16.");
    assert_eq!(
        UuidError::InvalidLength(1234567890).to_string(),
        "Invalid number of bytes for UUID: 1234567890 bytes != 16."
    );
}

#[test]
fn test_uuid_to_string() {
    let id = Uuid::from_bytes([0, 0, 0, 0, 0, 0, 0, 0, 0, 0, 0, 0, 1, 2, 3, 4]);
    assert_eq!(id.to_string(), "00000000-0000-0000-0000-000001020304");
    let bytes = [0xa1, 0xa2, 0xa3, 0xa4, 0xb1, 0xb2, 0xc1, 0xc2, 0xd1, 0xd2, 0xd3, 0xd4, 0xd5, 0xd6, 0xd7, 0xd8];
    assert_eq!(Uuid::from_bytes(bytes).to_string(), "a1a2a3a4-b1b2-c1c2-d1d2-d3d4d5d6d7d8");
    assert_eq!(Uuid::from_bytes([0xff; 16]).to_string(), "ffffffff-ffff-ffff-ffff-ffffffffffff");
}

#[test]
fn test_uuid_new_v4_is_version_4() {
    for _ in 0..100 {
        let id = Uuid::new_v4();
        assert_eq!(id.get_version_num(), 4);
        assert_eq!(id.as_bytes()[6] >> 4, 4);
        assert_eq!(id.as_bytes()[8] >> 6, 2);
    }
    assert_ne!(Uuid::new_v4(), Uuid::new_v4());
}

#[test]
fn test_sql_blob_uuid() {
    let bytes = [1, 2, 3, 4, 5, 6, 7, 8, 9, 10, 11, 12, 13, 14, 15, 16];
    let blob = SqlBlobUuid::column_result(&bytes).unwrap();
    assert_eq!(blob.uuid, Uuid::from_bytes(bytes));
    assert_eq!(blob.uuid.to_u128_le(), 0x100f0e0d0c0b0a090807060504030201u128);
    assert_eq!(blob.to_blob(), bytes);
    assert_eq!(SqlBlobUuid::column_result(&bytes[..15]), Err(UuidError::InvalidLength(15)));
    assert_eq!(SqlBlobUuid::column_result(&[0; 32]), Err(UuidError::InvalidLength(32)));
}

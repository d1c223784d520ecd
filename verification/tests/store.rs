use kanban_store::Task;
use kanban_store::TaskRow;
use kanban_store::StoreError;
use kanban_store::Store;
use kanban_store::create_tables;
use kanban_store::insert_task;
use kanban_store::store::open_store;
use kanban_store::store::open_store_in_memory;
use kanban_store::store::insert_task_row;
use kanban_store::store::fetch_task;
use kanban_store::store::fetch_task_row;
use kanban_store::store::task_count;

fn sample_task(id: &str, title: &str) -> Task {
    Task {
        id: id.to_string(),
        title: title.to_string(),
        description: Some("a description".to_string()),
        document_id: Some("doc-7".to_string()),
        priority: "medium".to_string(),
        created_at: "2024-05-06T07:08:09Z".to_string(),
        updated_at: "2024-05-06T07:08:10Z".to_string(),
        column_id: "in progress".to_string(),
        deadline: Some("2024-06-01T00:00:00Z".to_string()),
    }
}

fn complete_row(id: &str) -> TaskRow {
    TaskRow {
        id: Some(id.to_string()),
        title: Some("row title".to_string()),
        description: None,
        document_id: None,
        priority: Some("low".to_string()),
        created_at: Some("2024-01-02T03:04:05Z".to_string()),
        updated_at: Some("2024-01-02T03:04:06Z".to_string()),
        column_id: Some("done".to_string()),
        deadline: None,
    }
}

fn fresh_store_with_schema() -> Store {
    let mut store = open_store_in_memory().expect("in-memory store should open");
    create_tables(&mut store).expect("schema creation should succeed");
    store
}

#[test]
fn schema_creation_is_idempotent() {
    let mut store = open_store_in_memory().expect("in-memory store should open");
    assert!(create_tables(&mut store).is_ok());
    assert!(create_tables(&mut store).is_ok());
    // The table is present and empty: it can be counted and written to.
    assert_eq!(task_count(&store).expect("count should succeed"), 0);
    let task = sample_task("s1", "after two creates");
    assert!(insert_task(&mut store, &task).is_ok());
    assert_eq!(task_count(&store).expect("count should succeed"), 1);
}

#[test]
fn round_trip_preserves_every_attribute() {
    let mut store = fresh_store_with_schema();
    let task = sample_task("r1", "round trip");
    insert_task(&mut store, &task).expect("insert should succeed");

    let row = fetch_task_row(&store, "r1")
        .expect("read should succeed")
        .expect("the row should be present");
    assert_eq!(row.id.as_deref(), Some("r1"));
    assert_eq!(row.title.as_deref(), Some("round trip"));
    assert_eq!(row.description.as_deref(), Some("a description"));
    assert_eq!(row.document_id.as_deref(), Some("doc-7"));
    assert_eq!(row.priority.as_deref(), Some("medium"));
    assert_eq!(row.created_at.as_deref(), Some("2024-05-06T07:08:09Z"));
    assert_eq!(row.updated_at.as_deref(), Some("2024-05-06T07:08:10Z"));
    assert_eq!(row.column_id.as_deref(), Some("in progress"));
    assert_eq!(row.deadline.as_deref(), Some("2024-06-01T00:00:00Z"));

    let back = fetch_task(&store, "r1")
        .expect("read should succeed")
        .expect("the task should be present");
    assert_eq!(back.id, task.id);
    assert_eq!(back.title, task.title);
    assert_eq!(back.description, task.description);
    assert_eq!(back.document_id, task.document_id);
    assert_eq!(back.priority, task.priority);
    assert_eq!(back.created_at, task.created_at);
    assert_eq!(back.updated_at, task.updated_at);
    assert_eq!(back.column_id, task.column_id);
    assert_eq!(back.deadline, task.deadline);
}

#[test]
fn duplicate_id_is_rejected_and_first_row_kept() {
    let mut store = fresh_store_with_schema();
    let first = sample_task("d1", "the first");
    let second = sample_task("d1", "the second");
    insert_task(&mut store, &first).expect("first insert should succeed");

    let r = insert_task(&mut store, &second);
    assert!(matches!(r, Err(StoreError::DuplicateKey(_))));
    if let Err(e) = r {
        assert!(!e.message().is_empty());
    }

    assert_eq!(task_count(&store).expect("count should succeed"), 1);
    let kept = fetch_task(&store, "d1")
        .expect("read should succeed")
        .expect("the first task should still be present");
    assert_eq!(kept.title, "the first");
}

#[test]
fn missing_title_is_rejected() {
    let mut store = fresh_store_with_schema();
    let mut row = complete_row("m1");
    row.title = None;
    assert!(matches!(insert_task_row(&mut store, &row), Err(StoreError::Constraint(_))));
    assert_eq!(task_count(&store).expect("count should succeed"), 0);
}

#[test]
fn missing_priority_is_rejected() {
    let mut store = fresh_store_with_schema();
    let mut row = complete_row("m2");
    row.priority = None;
    assert!(matches!(insert_task_row(&mut store, &row), Err(StoreError::Constraint(_))));
    assert_eq!(task_count(&store).expect("count should succeed"), 0);
}

#[test]
fn missing_created_at_is_rejected() {
    let mut store = fresh_store_with_schema();
    let mut row = complete_row("m3");
    row.created_at = None;
    assert!(matches!(insert_task_row(&mut store, &row), Err(StoreError::Constraint(_))));
    assert_eq!(task_count(&store).expect("count should succeed"), 0);
}

#[test]
fn missing_updated_at_is_rejected() {
    let mut store = fresh_store_with_schema();
    let mut row = complete_row("m4");
    row.updated_at = None;
    assert!(matches!(insert_task_row(&mut store, &row), Err(StoreError::Constraint(_))));
    assert_eq!(task_count(&store).expect("count should succeed"), 0);
}

#[test]
fn missing_column_id_is_rejected() {
    let mut store = fresh_store_with_schema();
    let mut row = complete_row("m5");
    row.column_id = None;
    assert!(matches!(insert_task_row(&mut store, &row), Err(StoreError::Constraint(_))));
    assert_eq!(task_count(&store).expect("count should succeed"), 0);
}

#[test]
fn missing_id_is_rejected() {
    let mut store = fresh_store_with_schema();
    let mut row = complete_row("m6");
    row.id = None;
    assert!(matches!(insert_task_row(&mut store, &row), Err(StoreError::Constraint(_))));
    assert_eq!(task_count(&store).expect("count should succeed"), 0);
}

#[test]
fn complete_row_inserts_and_reads_back() {
    let mut store = fresh_store_with_schema();
    let row = complete_row("c1");
    insert_task_row(&mut store, &row).expect("complete row should insert");
    let back = fetch_task_row(&store, "c1")
        .expect("read should succeed")
        .expect("the row should be present");
    assert_eq!(back.title.as_deref(), Some("row title"));
    assert_eq!(back.description, None);
}

#[test]
fn absent_optional_fields_are_stored_as_null() {
    let mut store = fresh_store_with_schema();
    let task = Task {
        id: "n1".to_string(),
        title: "no optionals".to_string(),
        description: None,
        document_id: None,
        priority: "low".to_string(),
        created_at: "2024-02-02T00:00:00Z".to_string(),
        updated_at: "2024-02-02T00:00:00Z".to_string(),
        column_id: "todo".to_string(),
        deadline: None,
    };
    insert_task(&mut store, &task).expect("insert should succeed");
    let row = fetch_task_row(&store, "n1")
        .expect("read should succeed")
        .expect("the row should be present");
    assert_eq!(row.description, None);
    assert_eq!(row.document_id, None);
    assert_eq!(row.deadline, None);
    assert_eq!(row.title.as_deref(), Some("no optionals"));
}

#[test]
fn scenario_insert_then_duplicate() {
    let mut store = fresh_store_with_schema();
    let t1 = Task {
        id: "t1".to_string(),
        title: "Write spec".to_string(),
        description: None,
        document_id: None,
        priority: "high".to_string(),
        created_at: "2024-01-01T00:00:00Z".to_string(),
        updated_at: "2024-01-01T00:00:00Z".to_string(),
        column_id: "todo".to_string(),
        deadline: None,
    };
    assert!(insert_task(&mut store, &t1).is_ok());
    assert_eq!(task_count(&store).expect("count should succeed"), 1);

    let stored = fetch_task(&store, "t1")
        .expect("read should succeed")
        .expect("the task should be present");
    assert_eq!(stored.id, "t1");
    assert_eq!(stored.title, "Write spec");
    assert_eq!(stored.description, None);
    assert_eq!(stored.document_id, None);
    assert_eq!(stored.priority, "high");
    assert_eq!(stored.created_at, "2024-01-01T00:00:00Z");
    assert_eq!(stored.updated_at, "2024-01-01T00:00:00Z");
    assert_eq!(stored.column_id, "todo");
    assert_eq!(stored.deadline, None);

    let again = insert_task(&mut store, &t1);
    assert!(matches!(again, Err(StoreError::DuplicateKey(_))));
    assert_eq!(task_count(&store).expect("count should succeed"), 1);
}

#[test]
fn fetch_of_absent_id_returns_none() {
    let mut store = fresh_store_with_schema();
    let task = sample_task("p1", "present");
    insert_task(&mut store, &task).expect("insert should succeed");
    assert!(fetch_task(&store, "absent").expect("read should succeed").is_none());
    assert!(fetch_task_row(&store, "absent").expect("read should succeed").is_none());
}

#[test]
fn unopenable_path_gives_connection_error() {
    let r = open_store("no_such_directory/nested/kanban_test.db");
    assert!(matches!(r, Err(StoreError::Connection(_))));
}

#[test]
fn insert_without_schema_fails_with_io() {
    let mut store = open_store_in_memory().expect("in-memory store should open");
    let task = sample_task("x1", "no schema yet");
    assert!(matches!(insert_task(&mut store, &task), Err(StoreError::Io(_))));
}

#[test]
fn row_conversions_are_inverse() {
    let task = sample_task("v1", "conversions");
    let row = task.to_row();
    assert_eq!(row.id.as_deref(), Some("v1"));
    assert_eq!(row.title.as_deref(), Some("conversions"));
    assert_eq!(row.description.as_deref(), Some("a description"));
    let back = row.into_task().expect("a bound row is complete");
    assert_eq!(back.id, task.id);
    assert_eq!(back.title, task.title);
    assert_eq!(back.deadline, task.deadline);
}

#[test]
fn incomplete_row_describes_no_task() {
    let mut row = complete_row("v2");
    row.created_at = None;
    assert!(row.into_task().is_none());
}

use serde_json::{Number, Value};
use task_manager::error::ErrorKind;
use task_manager::params::Field;
use task_manager::registry::{check_field, decode, Registry};
use task_manager::request::{perform, Payload, Request};
use task_manager::store::TaskStore;
use task_manager::tool::{Operation, ParamKind, ParamSpec};

fn object(entries: Vec<(&str, Value)>) -> serde_json::Map<String, Value> {
    let mut map = serde_json::Map::new();
    for (key, value) in entries {
        map.insert(key.to_string(), value);
    }
    map
}

fn string(s: &str) -> Value {
    Value::String(s.to_string())
}

fn unsigned(n: u64) -> Value {
    Value::Number(Number::from(n))
}

fn task_of(payload: Payload) -> task_manager::task::Task {
    match payload {
        Payload::Created(task) | Payload::Completed(task) | Payload::Found(task) => task,
        Payload::Listing { .. } => panic!("expected a task"),
    }
}

#[test]
fn table_declares_the_four_operations() {
    let registry = Registry::new();
    let tools = registry.tools();
    let names: Vec<&str> = tools.iter().map(|t| t.name.as_str()).collect();
    assert_eq!(names, vec!["add_task", "complete_task", "list_tasks", "get_task"]);
    let operations: Vec<Operation> = tools.iter().map(|t| t.operation).collect();
    assert_eq!(
        operations,
        vec![
            Operation::AddTask,
            Operation::CompleteTask,
            Operation::ListTasks,
            Operation::GetTask
        ]
    );
    assert_eq!(tools[0].description, "Add a new task to the task manager");
    assert_eq!(tools[1].description, "Mark a task as completed");
    assert_eq!(tools[2].description, "List all tasks in the task manager");
    assert_eq!(tools[3].description, "Get a specific task by ID");
}

#[test]
fn table_declares_the_parameters_of_each_operation() {
    let registry = Registry::new();
    let tools = registry.tools();
    let add = &tools[0].params;
    assert_eq!(add.len(), 2);
    assert_eq!(add[0].name, "title");
    assert_eq!(add[0].description, "The title of the task");
    assert_eq!(add[0].kind, ParamKind::Text);
    assert!(add[0].required);
    assert_eq!(add[1].name, "description");
    assert_eq!(add[1].description, "A detailed description of the task");
    assert_eq!(add[1].kind, ParamKind::Text);
    assert!(!add[1].required);
    let complete = &tools[1].params;
    assert_eq!(complete.len(), 1);
    assert_eq!(complete[0].name, "id");
    assert_eq!(complete[0].description, "The ID of the task to mark as completed");
    assert_eq!(complete[0].kind, ParamKind::Unsigned);
    assert!(complete[0].required);
    assert!(tools[2].params.is_empty());
    let get = &tools[3].params;
    assert_eq!(get.len(), 1);
    assert_eq!(get[0].name, "id");
    assert_eq!(get[0].description, "The ID of the task to retrieve");
}

#[test]
fn find_resolves_names_to_rows() {
    let registry = Registry::new();
    assert_eq!(registry.find("add_task"), Some(0));
    assert_eq!(registry.find("complete_task"), Some(1));
    assert_eq!(registry.find("list_tasks"), Some(2));
    assert_eq!(registry.find("get_task"), Some(3));
    assert_eq!(registry.find("delete_task"), None);
    assert_eq!(registry.find(""), None);
    assert_eq!(registry.find("Add_Task"), None);
}

#[test]
fn add_task_reads_title_and_description() {
    let registry = Registry::new();
    let mut store = TaskStore::new();
    let doc = object(vec![("title", string("Write spec")), ("description", string("draft v1"))]);
    let envelope = registry.call(&mut store, "add_task", &doc).unwrap();
    assert_eq!(envelope.summary, "Task 'Write spec' added successfully with ID 1");
    let task = task_of(envelope.payload);
    assert_eq!(task.id, 1);
    assert_eq!(task.title, "Write spec");
    assert_eq!(task.description, "draft v1");
    assert!(!task.completed);
    let stored = store.get_task(1).unwrap();
    assert_eq!(stored.title, "Write spec");
    assert_eq!(stored.description, "draft v1");
}

#[test]
fn add_task_without_description_uses_the_empty_text() {
    let registry = Registry::new();
    let mut store = TaskStore::new();
    let doc = object(vec![("title", string("Review spec"))]);
    let envelope = registry.call(&mut store, "add_task", &doc).unwrap();
    let task = task_of(envelope.payload);
    assert_eq!(task.title, "Review spec");
    assert_eq!(task.description, "");
}

#[test]
fn entries_that_are_not_declared_are_ignored() {
    let registry = Registry::new();
    let mut store = TaskStore::new();
    let doc = object(vec![
        ("priority", unsigned(3)),
        ("title", string("t")),
        ("tags", Value::Array(vec![string("a")])),
    ]);
    let envelope = registry.call(&mut store, "add_task", &doc).unwrap();
    assert_eq!(task_of(envelope.payload).title, "t");
    let envelope = registry.call(&mut store, "list_tasks", &doc).unwrap();
    assert_eq!(envelope.summary, "Total tasks: 1");
}

#[test]
fn missing_title_is_invalid_params_and_reaches_no_handler() {
    let registry = Registry::new();
    let mut store = TaskStore::new();
    let doc = object(vec![("description", string("x"))]);
    let error = registry.call(&mut store, "add_task", &doc).unwrap_err();
    assert_eq!(error.kind, ErrorKind::InvalidParams);
    assert_eq!(error.reason, "invalid parameters: missing field `title`");
    assert_eq!(store.len(), 0);
    assert_eq!(store.next_id(), 1);
}

#[test]
fn title_of_the_wrong_kind_is_invalid_params() {
    let registry = Registry::new();
    let mut store = TaskStore::new();
    for value in [
        Value::Null,
        Value::Bool(true),
        unsigned(5),
        Value::Array(Vec::new()),
        Value::Object(serde_json::Map::new()),
    ] {
        let doc = object(vec![("title", value)]);
        let error = registry.call(&mut store, "add_task", &doc).unwrap_err();
        assert_eq!(error.kind, ErrorKind::InvalidParams);
        assert_eq!(error.reason, "invalid parameters: field `title` must be a string");
    }
    assert_eq!(store.len(), 0);
}

#[test]
fn description_of_the_wrong_kind_is_invalid_params() {
    let registry = Registry::new();
    let mut store = TaskStore::new();
    let doc = object(vec![("title", string("t")), ("description", unsigned(1))]);
    let error = registry.call(&mut store, "add_task", &doc).unwrap_err();
    assert_eq!(error.kind, ErrorKind::InvalidParams);
    assert_eq!(error.reason, "invalid parameters: field `description` must be a string");
    assert_eq!(store.len(), 0);
}

#[test]
fn the_first_violated_parameter_is_reported() {
    let registry = Registry::new();
    let mut store = TaskStore::new();
    let doc = object(vec![("description", unsigned(1))]);
    let error = registry.call(&mut store, "add_task", &doc).unwrap_err();
    assert_eq!(error.reason, "invalid parameters: missing field `title`");
}

#[test]
fn empty_title_is_rejected_and_the_next_id_is_kept() {
    let registry = Registry::new();
    let mut store = TaskStore::new();
    let doc = object(vec![("title", string("")), ("description", string("x"))]);
    let error = registry.call(&mut store, "add_task", &doc).unwrap_err();
    assert_eq!(error.kind, ErrorKind::InvalidArgument);
    assert_eq!(error.reason, "title must not be empty");
    assert_eq!(store.next_id(), 1);
    let doc = object(vec![("title", string("real"))]);
    let envelope = registry.call(&mut store, "add_task", &doc).unwrap();
    assert_eq!(task_of(envelope.payload).id, 1);
}

#[test]
fn complete_task_reads_the_id() {
    let registry = Registry::new();
    let mut store = TaskStore::new();
    store.add_task("a".to_string(), String::new()).unwrap();
    store.add_task("b".to_string(), String::new()).unwrap();
    let envelope = registry.call(&mut store, "complete_task", &object(vec![("id", unsigned(2))])).unwrap();
    assert_eq!(envelope.summary, "Task 'b' marked as completed");
    let task = task_of(envelope.payload);
    assert_eq!(task.id, 2);
    assert!(task.completed);
    assert!(!store.get_task(1).unwrap().completed);
    assert!(store.get_task(2).unwrap().completed);
}

#[test]
fn complete_task_of_a_missing_id_is_not_found() {
    let registry = Registry::new();
    let mut store = TaskStore::new();
    store.add_task("a".to_string(), String::new()).unwrap();
    let error = registry
        .call(&mut store, "complete_task", &object(vec![("id", unsigned(41))]))
        .unwrap_err();
    assert_eq!(error.kind, ErrorKind::NotFound);
    assert_eq!(error.reason, "Task with ID 41 not found");
    assert!(!store.get_task(1).unwrap().completed);
    assert_eq!(store.len(), 1);
}

#[test]
fn id_must_be_an_unsigned_integer() {
    let registry = Registry::new();
    let mut store = TaskStore::new();
    store.add_task("a".to_string(), String::new()).unwrap();
    let negative = Value::Number(Number::from(-1i64));
    let fraction = Value::Number(Number::from_f64(1.5).unwrap());
    let whole_float = Value::Number(Number::from_f64(1.0).unwrap());
    for value in [negative, fraction, whole_float, string("1"), Value::Null, Value::Bool(false)] {
        for name in ["complete_task", "get_task"] {
            let doc = object(vec![("id", value.clone())]);
            let error = registry.call(&mut store, name, &doc).unwrap_err();
            assert_eq!(error.kind, ErrorKind::InvalidParams);
            assert_eq!(error.reason, "invalid parameters: field `id` must be an unsigned integer");
        }
    }
    assert!(!store.get_task(1).unwrap().completed);
}

#[test]
fn missing_id_is_invalid_params() {
    let registry = Registry::new();
    let mut store = TaskStore::new();
    for name in ["complete_task", "get_task"] {
        let error = registry.call(&mut store, name, &serde_json::Map::new()).unwrap_err();
        assert_eq!(error.kind, ErrorKind::InvalidParams);
        assert_eq!(error.reason, "invalid parameters: missing field `id`");
    }
}

#[test]
fn get_task_returns_the_record() {
    let registry = Registry::new();
    let mut store = TaskStore::new();
    store.add_task("a".to_string(), "x".to_string()).unwrap();
    let envelope = registry.call(&mut store, "get_task", &object(vec![("id", unsigned(1))])).unwrap();
    assert_eq!(envelope.summary, "Task 'a' found");
    let task = task_of(envelope.payload);
    assert_eq!((task.id, task.title.as_str(), task.description.as_str(), task.completed), (1, "a", "x", false));
    let error = registry.call(&mut store, "get_task", &object(vec![("id", unsigned(3))])).unwrap_err();
    assert_eq!(error.kind, ErrorKind::NotFound);
    assert_eq!(error.reason, "Task with ID 3 not found");
    let error = registry
        .call(&mut store, "get_task", &object(vec![("id", unsigned(u64::MAX))]))
        .unwrap_err();
    assert_eq!(error.reason, "Task with ID 18446744073709551615 not found");
}

#[test]
fn list_tasks_reports_total_and_tasks() {
    let registry = Registry::new();
    let mut store = TaskStore::new();
    let envelope = registry.call(&mut store, "list_tasks", &serde_json::Map::new()).unwrap();
    assert_eq!(envelope.summary, "Total tasks: 0");
    match envelope.payload {
        Payload::Listing { total, tasks } => {
            assert_eq!(total, 0);
            assert!(tasks.is_empty());
        }
        _ => panic!("expected a listing"),
    }
    for i in 0..12 {
        store.add_task(format!("t{}", i), String::new()).unwrap();
    }
    let envelope = registry.call(&mut store, "list_tasks", &serde_json::Map::new()).unwrap();
    assert_eq!(envelope.summary, "Total tasks: 12");
    match envelope.payload {
        Payload::Listing { total, tasks } => {
            assert_eq!(total, 12);
            assert_eq!(tasks.len(), 12);
            assert_eq!(tasks[11].title, "t11");
            assert_eq!(tasks[11].id, 12);
        }
        _ => panic!("expected a listing"),
    }
    assert_eq!(store.len(), 12);
}

#[test]
fn the_payload_says_what_was_done() {
    let registry = Registry::new();
    let mut store = TaskStore::new();
    let added = registry.call(&mut store, "add_task", &object(vec![("title", string("t"))])).unwrap();
    assert!(matches!(added.payload, Payload::Created(_)));
    let done = registry.call(&mut store, "complete_task", &object(vec![("id", unsigned(1))])).unwrap();
    assert!(matches!(done.payload, Payload::Completed(_)));
    let found = registry.call(&mut store, "get_task", &object(vec![("id", unsigned(1))])).unwrap();
    assert!(matches!(found.payload, Payload::Found(_)));
    let listed = registry.call(&mut store, "list_tasks", &object(vec![])).unwrap();
    assert!(matches!(listed.payload, Payload::Listing { .. }));
}

#[test]
fn unknown_operation_is_invalid_params() {
    let registry = Registry::new();
    let mut store = TaskStore::new();
    store.add_task("a".to_string(), String::new()).unwrap();
    let doc = object(vec![("id", unsigned(1)), ("title", string("t"))]);
    let error = registry.call(&mut store, "delete_task", &doc).unwrap_err();
    assert_eq!(error.kind, ErrorKind::InvalidParams);
    assert_eq!(error.reason, "tool not found");
    assert_eq!(store.len(), 1);
    assert!(!store.get_task(1).unwrap().completed);
}

#[test]
fn a_failure_invokes_no_other_operation() {
    let registry = Registry::new();
    let mut store = TaskStore::new();
    store.add_task("a".to_string(), String::new()).unwrap();
    let before = store.next_id();
    let doc = object(vec![("id", string("1")), ("title", string("t"))]);
    assert!(registry.call(&mut store, "complete_task", &doc).is_err());
    assert_eq!(store.next_id(), before);
    assert_eq!(store.len(), 1);
    assert!(!store.get_task(1).unwrap().completed);
}

#[test]
fn decode_builds_typed_requests() {
    let doc = object(vec![("title", string("t")), ("description", string("d")), ("id", unsigned(9))]);
    match decode(&Operation::AddTask.tool(), &doc).unwrap() {
        Request::AddTask { title, description } => {
            assert_eq!(title, "t");
            assert_eq!(description, "d");
        }
        other => panic!("unexpected request {:?}", other),
    }
    match decode(&Operation::CompleteTask.tool(), &doc).unwrap() {
        Request::CompleteTask { id } => assert_eq!(id, 9),
        other => panic!("unexpected request {:?}", other),
    }
    match decode(&Operation::GetTask.tool(), &doc).unwrap() {
        Request::GetTask { id } => assert_eq!(id, 9),
        other => panic!("unexpected request {:?}", other),
    }
    match decode(&Operation::ListTasks.tool(), &doc).unwrap() {
        Request::ListTasks => {}
        other => panic!("unexpected request {:?}", other),
    }
}

#[test]
fn check_field_on_each_kind_of_value() {
    let title = ParamSpec {
        name: "title".to_string(),
        description: String::new(),
        kind: ParamKind::Text,
        required: true,
    };
    let note = ParamSpec {
        name: "note".to_string(),
        description: String::new(),
        kind: ParamKind::Text,
        required: false,
    };
    let id = ParamSpec {
        name: "id".to_string(),
        description: String::new(),
        kind: ParamKind::Unsigned,
        required: true,
    };
    assert!(check_field(&title, &Some(Field::Text("x".to_string()))).is_ok());
    assert!(check_field(&title, &Some(Field::Text(String::new()))).is_ok());
    assert!(check_field(&note, &None).is_ok());
    assert!(check_field(&id, &Some(Field::Number(Some(0)))).is_ok());
    let error = check_field(&title, &None).unwrap_err();
    assert_eq!(error.kind, ErrorKind::InvalidParams);
    assert_eq!(error.reason, "invalid parameters: missing field `title`");
    let error = check_field(&note, &Some(Field::Null)).unwrap_err();
    assert_eq!(error.reason, "invalid parameters: field `note` must be a string");
    let error = check_field(&id, &Some(Field::Number(None))).unwrap_err();
    assert_eq!(error.reason, "invalid parameters: field `id` must be an unsigned integer");
    let error = check_field(&id, &Some(Field::Text("7".to_string()))).unwrap_err();
    assert_eq!(error.reason, "invalid parameters: field `id` must be an unsigned integer");
    assert!(check_field(&id, &Some(Field::Array)).is_err());
    assert!(check_field(&id, &Some(Field::Object)).is_err());
    assert!(check_field(&title, &Some(Field::Bool(true))).is_err());
}

#[test]
fn perform_serves_typed_requests_without_a_registry() {
    let mut store = TaskStore::new();
    let added = perform(
        &mut store,
        Request::AddTask { title: "a".to_string(), description: "x".to_string() },
    )
    .unwrap();
    assert_eq!(added.summary, "Task 'a' added successfully with ID 1");
    let error = perform(
        &mut store,
        Request::AddTask { title: String::new(), description: "x".to_string() },
    )
    .unwrap_err();
    assert_eq!(error.kind, ErrorKind::InvalidArgument);
    let done = perform(&mut store, Request::CompleteTask { id: 1 }).unwrap();
    assert_eq!(done.summary, "Task 'a' marked as completed");
    assert!(task_of(done.payload).completed);
    let error = perform(&mut store, Request::GetTask { id: 2 }).unwrap_err();
    assert_eq!(error.kind, ErrorKind::NotFound);
    let listing = perform(&mut store, Request::ListTasks).unwrap();
    assert_eq!(listing.summary, "Total tasks: 1");
}

#[test]
fn end_to_end_scenario() {
    let registry = Registry::new();
    let mut store = TaskStore::new();

    let doc = object(vec![("title", string("Write spec")), ("description", string("draft v1"))]);
    let first = task_of(registry.call(&mut store, "add_task", &doc).unwrap().payload);
    assert_eq!(first.id, 1);
    assert!(!first.completed);

    let doc = object(vec![("title", string("Review spec"))]);
    let second = task_of(registry.call(&mut store, "add_task", &doc).unwrap().payload);
    assert_eq!(second.id, 2);

    let doc = object(vec![("id", unsigned(1))]);
    let done = task_of(registry.call(&mut store, "complete_task", &doc).unwrap().payload);
    assert!(done.completed);

    match registry.call(&mut store, "list_tasks", &serde_json::Map::new()).unwrap().payload {
        Payload::Listing { total, tasks } => {
            assert_eq!(total, 2);
            assert_eq!(tasks.len(), 2);
            assert_eq!(tasks[0].id, 1);
            assert_eq!(tasks[0].title, "Write spec");
            assert!(tasks[0].completed);
            assert_eq!(tasks[1].id, 2);
            assert_eq!(tasks[1].title, "Review spec");
            assert!(!tasks[1].completed);
        }
        _ => panic!("expected a listing"),
    }

    let doc = object(vec![("id", unsigned(3))]);
    let error = registry.call(&mut store, "get_task", &doc).unwrap_err();
    assert_eq!(error.kind, ErrorKind::NotFound);
}

#[test]
fn an_empty_table_knows_no_operation() {
    let registry = Registry::empty();
    let mut store = TaskStore::new();
    assert!(registry.tools().is_empty());
    assert_eq!(registry.find("list_tasks"), None);
    let error = registry.call(&mut store, "list_tasks", &serde_json::Map::new()).unwrap_err();
    assert_eq!(error.kind, ErrorKind::InvalidParams);
    assert_eq!(error.reason, "tool not found");
}

#[test]
fn dispatch_follows_the_rows_that_were_registered() {
    let mut registry = Registry::empty();
    registry.register(Operation::GetTask);
    registry.register(Operation::ListTasks);
    let mut store = TaskStore::new();
    store.add_task("a".to_string(), String::new()).unwrap();
    assert_eq!(registry.find("get_task"), Some(0));
    assert_eq!(registry.find("list_tasks"), Some(1));
    assert!(registry.call(&mut store, "get_task", &object(vec![("id", unsigned(1))])).is_ok());
    assert!(registry.call(&mut store, "list_tasks", &serde_json::Map::new()).is_ok());
    let error = registry
        .call(&mut store, "add_task", &object(vec![("title", string("t"))]))
        .unwrap_err();
    assert_eq!(error.kind, ErrorKind::InvalidParams);
    assert_eq!(error.reason, "tool not found");
    assert_eq!(store.len(), 1);
    registry.register(Operation::AddTask);
    registry.register(Operation::AddTask);
    assert_eq!(registry.find("add_task"), Some(2));
    assert_eq!(registry.tools().len(), 4);
    let added = registry.call(&mut store, "add_task", &object(vec![("title", string("t"))])).unwrap();
    assert_eq!(task_of(added.payload).id, 2);
}

#[test]
fn call_agrees_with_decode_and_perform() {
    let registry = Registry::new();
    let doc = object(vec![("title", string("same")), ("description", string("d"))]);
    let mut through_call = TaskStore::new();
    let mut through_perform = TaskStore::new();
    let called = registry.call(&mut through_call, "add_task", &doc).unwrap();
    let request = decode(&Operation::AddTask.tool(), &doc).unwrap();
    let performed = perform(&mut through_perform, request).unwrap();
    assert_eq!(called.summary, performed.summary);
    let (a, b) = (task_of(called.payload), task_of(performed.payload));
    assert_eq!((a.id, a.title, a.description, a.completed), (b.id, b.title, b.description, b.completed));
    assert_eq!(through_call.len(), through_perform.len());
}

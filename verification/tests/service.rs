use serde_json::{Number, Value};
use task_manager::error::ErrorKind;
use task_manager::protocol::{Capabilities, HandshakeRequest};
use task_manager::request::Payload;
use task_manager::service::Service;
use task_manager::session::SessionState;

fn hello() -> HandshakeRequest {
    HandshakeRequest {
        protocol_version: "2024-11-05".to_string(),
        capabilities: Capabilities { tools: true, resources: false, prompts: false, logging: false },
    }
}

fn params(entries: Vec<(&str, Value)>) -> serde_json::Map<String, Value> {
    let mut map = serde_json::Map::new();
    for (key, value) in entries {
        map.insert(key.to_string(), value);
    }
    map
}

fn string(s: &str) -> Value {
    Value::String(s.to_string())
}

fn unsigned(n: u64) -> Value {
    Value::Number(Number::from(n))
}

fn connected(service: &mut Service) -> u64 {
    let id = service.connect(0);
    service.handshake(id, &hello(), 0).unwrap();
    id
}

#[test]
fn a_new_service_is_empty() {
    let service = Service::new(60);
    assert_eq!(service.store().len(), 0);
    assert_eq!(service.sessions().len(), 0);
    assert_eq!(service.sessions().idle_timeout(), 60);
    assert_eq!(service.registry().tools().len(), 4);
}

#[test]
fn invocation_before_the_handshake_is_a_protocol_error() {
    let mut service = Service::new(60);
    let session = service.connect(0);
    let doc = params(vec![("title", string("t"))]);
    let response = service.invoke(session, "add_task", &doc, 77, 1);
    assert_eq!(response.correlation_token, 77);
    let error = response.outcome.unwrap_err();
    assert_eq!(error.kind, ErrorKind::ProtocolError);
    assert_eq!(error.reason, "session not initialized");
    assert_eq!(service.store().len(), 0);
    assert_eq!(service.store().next_id(), 1);
    assert_eq!(service.sessions().state(session), Some(SessionState::Connecting));
}

#[test]
fn invocation_for_an_unknown_session_is_a_protocol_error() {
    let mut service = Service::new(60);
    let doc = params(vec![("title", string("t"))]);
    let response = service.invoke(3, "add_task", &doc, 5, 1);
    assert_eq!(response.correlation_token, 5);
    let error = response.outcome.unwrap_err();
    assert_eq!(error.kind, ErrorKind::ProtocolError);
    assert_eq!(error.reason, "unknown session");
    assert_eq!(service.store().len(), 0);
}

#[test]
fn every_response_carries_the_token_of_its_request() {
    let mut service = Service::new(60);
    let session = connected(&mut service);
    let doc = params(vec![("title", string("t"))]);
    for token in [0u64, 1, 42, u64::MAX] {
        let ok = service.invoke(session, "add_task", &doc, token, 1);
        assert_eq!(ok.correlation_token, token);
        assert!(ok.outcome.is_ok());
        let failed = service.invoke(session, "no_such_tool", &doc, token, 1);
        assert_eq!(failed.correlation_token, token);
        assert!(failed.outcome.is_err());
    }
    assert_eq!(service.store().len(), 4);
}

#[test]
fn all_sessions_share_one_store() {
    let mut service = Service::new(60);
    let a = connected(&mut service);
    let b = connected(&mut service);
    let first = service.invoke(a, "add_task", &params(vec![("title", string("from a"))]), 1, 1);
    let second = service.invoke(b, "add_task", &params(vec![("title", string("from b"))]), 1, 1);
    let third = service.invoke(a, "add_task", &params(vec![("title", string("again a"))]), 2, 2);
    let ids: Vec<u64> = [first, second, third]
        .into_iter()
        .map(|r| match r.outcome.unwrap().payload {
            Payload::Created(task) => task.id,
            _ => panic!("expected a created task"),
        })
        .collect();
    assert_eq!(ids, vec![1, 2, 3]);
    let listing = service.invoke(b, "list_tasks", &serde_json::Map::new(), 3, 3);
    match listing.outcome.unwrap().payload {
        Payload::Listing { total, tasks } => {
            assert_eq!(total, 3);
            assert_eq!(tasks[0].title, "from a");
            assert_eq!(tasks[1].title, "from b");
            assert_eq!(tasks[2].title, "again a");
        }
        _ => panic!("expected a listing"),
    }
}

#[test]
fn a_failed_request_leaves_the_session_active() {
    let mut service = Service::new(60);
    let session = connected(&mut service);
    let response = service.invoke(session, "get_task", &params(vec![("id", unsigned(9))]), 1, 1);
    assert_eq!(response.outcome.unwrap_err().kind, ErrorKind::NotFound);
    let response = service.invoke(session, "add_task", &serde_json::Map::new(), 2, 2);
    assert_eq!(response.outcome.unwrap_err().kind, ErrorKind::InvalidParams);
    let response = service.invoke(session, "add_task", &params(vec![("title", string(""))]), 3, 3);
    assert_eq!(response.outcome.unwrap_err().kind, ErrorKind::InvalidArgument);
    assert_eq!(service.sessions().state(session), Some(SessionState::Active));
    let response = service.invoke(session, "add_task", &params(vec![("title", string("t"))]), 4, 4);
    assert!(response.outcome.is_ok());
}

#[test]
fn the_store_outlives_its_sessions() {
    let mut service = Service::new(60);
    let a = connected(&mut service);
    assert!(service.invoke(a, "add_task", &params(vec![("title", string("kept"))]), 1, 1).outcome.is_ok());
    service.disconnect(a);
    assert_eq!(service.sessions().state(a), None);
    assert_eq!(service.store().len(), 1);
    let refused = service.invoke(a, "list_tasks", &serde_json::Map::new(), 2, 2);
    assert_eq!(refused.outcome.unwrap_err().kind, ErrorKind::ProtocolError);
    let b = connected(&mut service);
    assert_eq!(b, 2);
    let found = service.invoke(b, "get_task", &params(vec![("id", unsigned(1))]), 1, 3);
    match found.outcome.unwrap().payload {
        Payload::Found(task) => assert_eq!(task.title, "kept"),
        _ => panic!("expected a found task"),
    }
}

#[test]
fn closing_one_session_does_not_close_another() {
    let mut service = Service::new(60);
    let a = connected(&mut service);
    let b = connected(&mut service);
    service.disconnect(a);
    assert_eq!(service.sessions().state(b), Some(SessionState::Active));
    assert!(service.invoke(b, "list_tasks", &serde_json::Map::new(), 1, 1).outcome.is_ok());
}

#[test]
fn idle_sessions_are_reclaimed() {
    let mut service = Service::new(60);
    let a = connected(&mut service);
    let b = connected(&mut service);
    assert!(service.invoke(b, "list_tasks", &serde_json::Map::new(), 1, 50).outcome.is_ok());
    assert_eq!(service.expire_idle(59), Vec::<u64>::new());
    assert_eq!(service.expire_idle(60), vec![a]);
    assert_eq!(service.sessions().state(a), None);
    assert_eq!(service.sessions().state(b), Some(SessionState::Active));
    assert_eq!(service.expire_idle(110), vec![b]);
    assert_eq!(service.sessions().len(), 0);
}

#[test]
fn handshake_through_the_service() {
    let mut service = Service::new(60);
    let session = service.connect(5);
    let old = HandshakeRequest {
        protocol_version: "2020-01-01".to_string(),
        capabilities: Capabilities { tools: true, resources: false, prompts: false, logging: false },
    };
    let error = service.handshake(session, &old, 6).unwrap_err();
    assert_eq!(error.kind, ErrorKind::UnsupportedVersion);
    assert_eq!(service.sessions().state(session), Some(SessionState::Connecting));
    let info = service.handshake(session, &hello(), 7).unwrap();
    assert_eq!(info.name, "task-manager");
    assert_eq!(info.protocol_version, "2024-11-05");
    assert_eq!(service.sessions().state(session), Some(SessionState::Active));
    let error = service.handshake(99, &hello(), 8).unwrap_err();
    assert_eq!(error.kind, ErrorKind::ProtocolError);
}

#[test]
fn scenario_over_a_session() {
    let mut service = Service::new(60);
    let session = connected(&mut service);
    let added = service.invoke(
        session,
        "add_task",
        &params(vec![("title", string("Write spec")), ("description", string("draft v1"))]),
        1,
        1,
    );
    match added.outcome.unwrap().payload {
        Payload::Created(task) => {
            assert_eq!(task.id, 1);
            assert!(!task.completed);
        }
        _ => panic!("expected a created task"),
    }
    let added = service.invoke(session, "add_task", &params(vec![("title", string("Review spec"))]), 2, 2);
    match added.outcome.unwrap().payload {
        Payload::Created(task) => assert_eq!(task.id, 2),
        _ => panic!("expected a created task"),
    }
    let done = service.invoke(session, "complete_task", &params(vec![("id", unsigned(1))]), 3, 3);
    match done.outcome.unwrap().payload {
        Payload::Completed(task) => assert!(task.completed),
        _ => panic!("expected a completed task"),
    }
    let listing = service.invoke(session, "list_tasks", &serde_json::Map::new(), 4, 4);
    match listing.outcome.unwrap().payload {
        Payload::Listing { total, tasks } => {
            assert_eq!(total, 2);
            assert_eq!((tasks[0].id, tasks[0].completed), (1, true));
            assert_eq!((tasks[1].id, tasks[1].completed), (2, false));
        }
        _ => panic!("expected a listing"),
    }
    let missing = service.invoke(session, "get_task", &params(vec![("id", unsigned(3))]), 5, 5);
    assert_eq!(missing.correlation_token, 5);
    assert_eq!(missing.outcome.unwrap_err().kind, ErrorKind::NotFound);
}

use hash_lsp::capabilities::negotiate;
use hash_lsp::lifecycle::{Action, Machine, Payload, ServerState};
use hash_lsp::protocol::{CompletionItem, CompletionKind, ErrorKind, Method, Request};

fn req(id: u64, method: Method) -> Request {
    Request { id: Some(id), method, item: None }
}

fn notif(method: Method) -> Request {
    Request { id: None, method, item: None }
}

fn item(label: &str) -> CompletionItem {
    CompletionItem {
        label: label.to_owned(),
        kind: CompletionKind::Text,
        detail: Some("Some detail".to_owned()),
    }
}

fn initialize(m: &mut Machine) {
    let a = m.handle(&req(1, Method::Initialize));
    assert!(matches!(a, Action::Respond(_)));
}

#[test]
fn uninitialized_requests_rejected() {
    let methods = vec![
        Method::Shutdown,
        Method::Completion,
        Method::CompletionResolve,
        Method::Hover,
        Method::Initialized,
        Method::Exit,
        Method::Unknown,
    ];
    for (i, method) in methods.into_iter().enumerate() {
        let mut m = Machine::new();
        let a = m.handle(&req(i as u64 + 1, method));
        match a {
            Action::Respond(r) => {
                assert_eq!(r.id, i as u64 + 1);
                let e = r.result.unwrap_err();
                assert_eq!(e.kind, ErrorKind::ServerNotInitialized);
                assert_eq!(e.kind.code(), -32002);
            }
            other => panic!("expected an error response, got {:?}", other),
        }
        assert_eq!(m.state, ServerState::Uninitialized);
    }
}

#[test]
fn initialize_transitions_and_reports_capabilities() {
    let mut m = Machine::new();
    let a = m.handle(&req(1, Method::Initialize));
    assert_eq!(m.state, ServerState::Initialized);
    match a {
        Action::Respond(r) => {
            assert_eq!(r.id, 1);
            match r.result.unwrap() {
                Payload::Initialize(res) => {
                    assert_eq!(res.capabilities, negotiate());
                    let completion = res.capabilities.completion_provider.unwrap();
                    assert!(completion.resolve_provider);
                    assert!(res.capabilities.hover_provider);
                    assert_eq!(res.server_info.name, "hash-lsp");
                    assert_eq!(res.server_info.version.as_deref(), Some("1.0"));
                }
                other => panic!("expected an initialize payload, got {:?}", other),
            }
        }
        other => panic!("expected a response, got {:?}", other),
    }
}

#[test]
fn negotiator_is_reproducible() {
    assert_eq!(negotiate(), negotiate());
    let caps = negotiate();
    assert_eq!(
        caps.text_document_sync,
        Some(hash_lsp::capabilities::SyncKind::Incremental)
    );
}

#[test]
fn second_initialize_rejected() {
    let mut m = Machine::new();
    initialize(&mut m);
    let a = m.handle(&req(2, Method::Initialize));
    match a {
        Action::Respond(r) => {
            let e = r.result.unwrap_err();
            assert_eq!(e.kind, ErrorKind::InvalidRequest);
        }
        other => panic!("expected an error response, got {:?}", other),
    }
    assert_eq!(m.state, ServerState::Initialized);
    let a = m.handle(&req(3, Method::Completion));
    assert!(matches!(a, Action::Respond(r) if r.result.is_ok()));
}

#[test]
fn completion_before_initialize_errors() {
    let mut m = Machine::new();
    let a = m.handle(&req(7, Method::Completion));
    match a {
        Action::Respond(r) => {
            let e = r.result.unwrap_err();
            assert_eq!(e.kind, ErrorKind::ServerNotInitialized);
            assert_eq!(e.message, "server not initialized");
        }
        other => panic!("expected an error response, got {:?}", other),
    }
}

#[test]
fn completion_after_initialize_returns_stable_list() {
    let mut m = Machine::new();
    initialize(&mut m);
    let a = m.handle(&req(2, Method::Completion));
    match a {
        Action::Respond(r) => match r.result.unwrap() {
            Payload::Completion(items) => {
                assert!(!items.is_empty());
                let labels: Vec<&str> = items.iter().map(|i| i.label.as_str()).collect();
                assert_eq!(labels, vec!["Hello", "Bye"]);
                for i in &items {
                    assert_eq!(i.kind, CompletionKind::Text);
                    assert_eq!(i.detail.as_deref(), Some("Some detail"));
                }
            }
            other => panic!("expected a completion payload, got {:?}", other),
        },
        other => panic!("expected a response, got {:?}", other),
    }
}

#[test]
fn resolve_twice_returns_equal_results() {
    let mut m = Machine::new();
    initialize(&mut m);
    let first = m.handle(&Request {
        id: Some(2),
        method: Method::CompletionResolve,
        item: Some(item("Hello")),
    });
    let second = m.handle(&Request {
        id: Some(2),
        method: Method::CompletionResolve,
        item: Some(item("Hello")),
    });
    assert_eq!(first, second);
    match first {
        Action::Respond(r) => match r.result.unwrap() {
            Payload::Resolved(i) => assert_eq!(i, item("Hello")),
            other => panic!("expected a resolved item, got {:?}", other),
        },
        other => panic!("expected a response, got {:?}", other),
    }
}

#[test]
fn resolve_without_item_is_invalid() {
    let mut m = Machine::new();
    initialize(&mut m);
    let a = m.handle(&req(2, Method::CompletionResolve));
    match a {
        Action::Respond(r) => {
            let e = r.result.unwrap_err();
            assert_eq!(e.kind, ErrorKind::InvalidRequest);
        }
        other => panic!("expected an error response, got {:?}", other),
    }
}

#[test]
fn hover_after_initialize() {
    let mut m = Machine::new();
    initialize(&mut m);
    let a = m.handle(&req(2, Method::Hover));
    match a {
        Action::Respond(r) => match r.result.unwrap() {
            Payload::Hover(Some(h)) => assert_eq!(h.value, "You're hovering!"),
            other => panic!("expected a hover payload, got {:?}", other),
        },
        other => panic!("expected a response, got {:?}", other),
    }
}

#[test]
fn unknown_method_not_found() {
    let mut m = Machine::new();
    initialize(&mut m);
    let a = m.handle(&req(2, Method::Unknown));
    match a {
        Action::Respond(r) => {
            let e = r.result.unwrap_err();
            assert_eq!(e.kind, ErrorKind::MethodNotFound);
            assert_eq!(e.kind.code(), -32601);
        }
        other => panic!("expected an error response, got {:?}", other),
    }
}

#[test]
fn shutdown_then_exit_terminates_cleanly() {
    let mut m = Machine::new();
    initialize(&mut m);
    let a = m.handle(&req(2, Method::Shutdown));
    match a {
        Action::Respond(r) => assert!(matches!(r.result.unwrap(), Payload::Shutdown)),
        other => panic!("expected a response, got {:?}", other),
    }
    assert_eq!(m.state, ServerState::ShuttingDown);
    let a = m.handle(&notif(Method::Exit));
    assert_eq!(a, Action::Exit(true));
    assert_eq!(m.state, ServerState::Exited);
    let a = m.handle(&req(3, Method::Completion));
    assert_eq!(a, Action::Closed);
}

#[test]
fn requests_after_shutdown_rejected() {
    let mut m = Machine::new();
    initialize(&mut m);
    m.handle(&req(2, Method::Shutdown));
    for (i, method) in [Method::Completion, Method::Hover, Method::Initialize, Method::Shutdown]
        .into_iter()
        .enumerate()
    {
        let a = m.handle(&req(10 + i as u64, method));
        match a {
            Action::Respond(r) => {
                let e = r.result.unwrap_err();
                assert_eq!(e.kind, ErrorKind::InvalidRequest);
                assert_eq!(e.message, "server shutting down");
            }
            other => panic!("expected an error response, got {:?}", other),
        }
        assert_eq!(m.state, ServerState::ShuttingDown);
    }
}

#[test]
fn exit_without_shutdown_is_unclean() {
    let mut m = Machine::new();
    initialize(&mut m);
    let a = m.handle(&notif(Method::Exit));
    assert_eq!(a, Action::Exit(false));
    assert_eq!(m.state, ServerState::Exited);
}

#[test]
fn notifications_before_initialize_are_ignored() {
    let mut m = Machine::new();
    let a = m.handle(&notif(Method::Initialized));
    assert_eq!(a, Action::Ignore);
    assert_eq!(m.state, ServerState::Uninitialized);
}

#[test]
fn initialized_notification_acknowledged() {
    let mut m = Machine::new();
    initialize(&mut m);
    let a = m.handle(&notif(Method::Initialized));
    assert_eq!(a, Action::Notice);
    assert_eq!(m.state, ServerState::Initialized);
}

#[test]
fn error_codes_follow_the_reserved_range() {
    assert_eq!(ErrorKind::ServerNotInitialized.code(), -32002);
    assert_eq!(ErrorKind::InvalidRequest.code(), -32600);
    assert_eq!(ErrorKind::MethodNotFound.code(), -32601);
    assert_eq!(ErrorKind::InternalError.code(), -32603);
}

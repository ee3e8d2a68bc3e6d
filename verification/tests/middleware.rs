use hash_lsp::lifecycle::{Action, Machine};
use hash_lsp::middleware::{Event, Interceptor};
use hash_lsp::protocol::{Method, Request};

fn script() -> Vec<Request> {
    vec![
        Request { id: Some(9), method: Method::Hover, item: None },
        Request { id: Some(1), method: Method::Initialize, item: None },
        Request { id: None, method: Method::Initialized, item: None },
        Request { id: Some(2), method: Method::Completion, item: None },
        Request { id: Some(3), method: Method::Unknown, item: None },
        Request { id: Some(4), method: Method::Shutdown, item: None },
        Request { id: Some(5), method: Method::Completion, item: None },
        Request { id: None, method: Method::Exit, item: None },
        Request { id: Some(6), method: Method::Hover, item: None },
    ]
}

#[test]
fn wrapped_service_produces_identical_responses() {
    let mut bare = Machine::new();
    let mut wrapped = Interceptor::layer(Machine::new());
    for q in script() {
        let plain = bare.handle(&q.duplicate());
        let (observed, _, _) = wrapped.call(q);
        assert_eq!(observed, plain);
    }
    assert_eq!(bare, wrapped.machine);
}

#[test]
fn events_carry_the_full_messages() {
    let mut wrapped = Interceptor::layer(Machine::new());
    for q in script() {
        let copy = q.duplicate();
        let (action, inbound, outbound) = wrapped.call(q);
        match inbound {
            Event::Inbound(seen) => assert_eq!(seen, copy),
            other => panic!("expected an inbound event, got {:?}", other),
        }
        match outbound {
            Event::Outbound(seen) => assert_eq!(seen, action),
            other => panic!("expected an outbound event, got {:?}", other),
        }
    }
}

#[test]
fn layer_does_not_touch_the_machine() {
    let m = Machine::new();
    let wrapped = Interceptor::layer(m);
    assert_eq!(wrapped.machine, m);
}

#[test]
fn observation_never_fails_a_call() {
    let mut wrapped = Interceptor::layer(Machine::new());
    let (action, _, _) =
        wrapped.call(Request { id: Some(1), method: Method::Initialize, item: None });
    assert!(matches!(action, Action::Respond(r) if r.result.is_ok()));
}

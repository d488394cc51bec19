use runtime::{
    Action, Call, Event, HostRequestState, Interface, LoadStep, Loader, RequestHandle, Router,
    Runtime, RuntimeError,
};

fn router(interface: Interface) -> Router {
    let mut loader = Loader::new(interface);
    loop {
        match loader.advance(true) {
            LoadStep::Pending(next) => loader = next,
            LoadStep::Loaded(router) => return router,
            LoadStep::Failed(error) => panic!("the load failed: {error:?}"),
        }
    }
}

fn request(uri: &str, headers: &[(&str, &str)]) -> HostRequestState {
    HostRequestState::new(
        "GET".to_string(),
        uri.to_string(),
        headers.iter().map(|(n, v)| (n.to_string(), v.to_string())).collect(),
        b"<H1>Hello !</H1>".to_vec(),
    )
}

fn runtime_with(interface: Interface) -> (Runtime<HostRequestState>, usize) {
    let mut runtime = Runtime::new();
    let id = runtime.add_instance(router(interface)).unwrap();
    (runtime, id)
}

fn dispatched<R: std::fmt::Debug>(action: Action<R>) -> Call {
    match action {
        Action::CallGuest(call) => call,
        other => panic!("the call did not start: {other:?}"),
    }
}

/// A plugin that adds a header whose value is the names of all headers, one
/// after the other.
fn concatenate(runtime: &mut Runtime<HostRequestState>, handle: RequestHandle, header: &str) -> Result<(), String> {
    let states = runtime.states_mut();
    let names: String = states.headers(handle).map_err(|e| e.message())?.iter().map(|(n, _)| n.as_str()).collect();
    states.set_header(handle, header.to_string(), names).map_err(|e| e.message())
}

#[test]
fn a_plugin_sees_the_headers_in_order_and_adds_one() {
    let (mut runtime, id) = runtime_with(Interface::rama_component());
    let call = dispatched(runtime.call_handle_request(id, request("/", &[("A", "1"), ("B", "2")])));
    assert_eq!(call.instance, id);
    assert_eq!(call.operation, 0);
    let verdict = concatenate(&mut runtime, call.handle, "x-handle-request");
    assert_eq!(verdict, Ok(()));
    match runtime.resume(Event::Returned(verdict)) {
        Action::PostReturn(cleanup) => assert_eq!(cleanup, call),
        other => panic!("no cleanup was asked for: {other:?}"),
    }
    match runtime.resume(Event::CleanedUp) {
        Action::Done(Ok(rewritten)) => {
            assert_eq!(
                rewritten,
                request("/", &[("A", "1"), ("B", "2"), ("x-handle-request", "AB")])
            );
        },
        other => panic!("the call did not complete: {other:?}"),
    }
    assert!(runtime.is_idle());
    assert!(!runtime.states().requests.contains(call.handle));
}

#[test]
fn the_response_operation_is_the_second_of_the_interface() {
    let (mut runtime, id) = runtime_with(Interface::rama_component());
    let call = dispatched(runtime.call_handle_response(id, request("/", &[("A", "1")])));
    assert_eq!(call.operation, 1);
    assert_eq!(concatenate(&mut runtime, call.handle, "x-handle-response"), Ok(()));
    assert!(matches!(runtime.resume(Event::Returned(Ok(()))), Action::PostReturn(_)));
    match runtime.resume(Event::CleanedUp) {
        Action::Done(Ok(rewritten)) => {
            assert_eq!(rewritten, request("/", &[("A", "1"), ("x-handle-response", "A")]));
        },
        other => panic!("the call did not complete: {other:?}"),
    }
}

#[test]
fn a_raw_string_goes_through_the_same_pipeline() {
    let mut runtime: Runtime<String> = Runtime::new();
    let id = runtime.add_instance(router(Interface::rama_component())).unwrap();
    let call = dispatched(runtime.call_handle_request(id, "request".to_string()));
    let text = runtime.states_mut().requests.get_mut(call.handle).unwrap();
    *text = text.chars().rev().collect();
    assert!(matches!(runtime.resume(Event::Returned(Ok(()))), Action::PostReturn(_)));
    match runtime.resume(Event::CleanedUp) {
        Action::Done(Ok(text)) => assert_eq!(text, "tseuqer"),
        other => panic!("the call did not complete: {other:?}"),
    }
}

#[test]
fn an_untouched_request_comes_back_as_it_was() {
    let (mut runtime, id) = runtime_with(Interface::crossroads());
    let sent = request("https://example.com/a?b", &[("A", "1"), ("a", "2"), ("B", "3")]);
    dispatched(runtime.call_handle(id, sent.clone()));
    assert!(matches!(runtime.resume(Event::Returned(Ok(()))), Action::PostReturn(_)));
    match runtime.resume(Event::CleanedUp) {
        Action::Done(Ok(back)) => assert_eq!(back, sent),
        other => panic!("the call did not complete: {other:?}"),
    }
}

#[test]
fn an_unknown_instance_is_not_found_and_the_request_comes_back() {
    let (mut runtime, id) = runtime_with(Interface::crossroads());
    for stranger in [0, id + 1, usize::MAX] {
        match runtime.call_handle(stranger, request("/", &[("A", "1")])) {
            Action::Done(Err(failure)) => {
                assert_eq!(failure.error, RuntimeError::NotFound(stranger));
                assert_eq!(failure.request, Some(request("/", &[("A", "1")])));
            },
            other => panic!("the call was not turned down: {other:?}"),
        }
        assert!(runtime.is_idle());
    }
}

#[test]
fn an_operation_that_the_instance_lacks_is_turned_down() {
    let (mut runtime, id) = runtime_with(Interface::crossroads());
    match runtime.call_handle_request(id, request("/", &[])) {
        Action::Done(Err(failure)) => {
            assert_eq!(failure.error, RuntimeError::UnknownOperation);
            assert_eq!(failure.request, Some(request("/", &[])));
        },
        other => panic!("the call was not turned down: {other:?}"),
    }
    match runtime.invoke(id, "Handle", request("/", &[])) {
        Action::Done(Err(failure)) => assert_eq!(failure.error, RuntimeError::UnknownOperation),
        other => panic!("the call was not turned down: {other:?}"),
    }
    assert!(matches!(runtime.invoke(id, "handle", request("/", &[])), Action::CallGuest(_)));
}

#[test]
fn a_second_call_waits_for_the_first() {
    let (mut runtime, id) = runtime_with(Interface::crossroads());
    let call = dispatched(runtime.call_handle(id, request("/first", &[])));
    match runtime.call_handle(id, request("/second", &[])) {
        Action::Done(Err(failure)) => {
            assert_eq!(failure.error, RuntimeError::OutOfTurn);
            assert_eq!(failure.request, Some(request("/second", &[])));
        },
        other => panic!("the call was not turned down: {other:?}"),
    }
    assert!(runtime.states().requests.contains(call.handle));
    assert!(matches!(runtime.resume(Event::Returned(Ok(()))), Action::PostReturn(_)));
    assert!(matches!(runtime.call_handle(id, request("/third", &[])), Action::Done(Err(_))));
    match runtime.resume(Event::CleanedUp) {
        Action::Done(Ok(back)) => assert_eq!(back, request("/first", &[])),
        other => panic!("the call did not complete: {other:?}"),
    }
    assert!(matches!(runtime.call_handle(id, request("/fourth", &[])), Action::CallGuest(_)));
}

#[test]
fn a_failure_of_the_plugin_is_reported_and_the_request_reclaimed() {
    let (mut runtime, id) = runtime_with(Interface::crossroads());
    let call = dispatched(runtime.call_handle(id, request("/", &[("A", "1")])));
    runtime.states_mut().set_header(call.handle, "B".to_string(), "2".to_string()).unwrap();
    match runtime.resume(Event::Returned(Err("no such tenant".to_string()))) {
        Action::PostReturn(cleanup) => assert_eq!(cleanup, call),
        other => panic!("no cleanup was asked for: {other:?}"),
    }
    match runtime.resume(Event::CleanedUp) {
        Action::Done(Err(failure)) => {
            assert_eq!(failure.error, RuntimeError::Plugin("no such tenant".to_string()));
            assert_eq!(failure.request, Some(request("/", &[("A", "1"), ("B", "2")])));
        },
        other => panic!("the call did not fail: {other:?}"),
    }
    assert!(runtime.is_idle());
    assert!(!runtime.states().requests.contains(call.handle));
}

#[test]
fn a_trap_ends_the_call_at_once_and_the_request_is_reclaimed() {
    let (mut runtime, id) = runtime_with(Interface::crossroads());
    let call = dispatched(runtime.call_handle(id, request("/", &[("A", "1")])));
    match runtime.resume(Event::Trapped("unreachable executed".to_string())) {
        Action::Done(Err(failure)) => {
            assert_eq!(failure.error, RuntimeError::EngineTrap("unreachable executed".to_string()));
            assert_eq!(failure.request, Some(request("/", &[("A", "1")])));
        },
        other => panic!("the call did not fail: {other:?}"),
    }
    assert!(runtime.is_idle());
    assert!(!runtime.states().requests.contains(call.handle));
    assert!(matches!(runtime.call_handle(id, request("/", &[])), Action::CallGuest(_)));
}

#[test]
fn a_failed_cleanup_is_a_fault_of_the_engine() {
    let (mut runtime, id) = runtime_with(Interface::crossroads());
    let call = dispatched(runtime.call_handle(id, request("/", &[])));
    assert!(matches!(runtime.resume(Event::Returned(Ok(()))), Action::PostReturn(_)));
    match runtime.resume(Event::CleanupFailed("store poisoned".to_string())) {
        Action::Done(Err(failure)) => {
            assert_eq!(failure.error, RuntimeError::EngineTrap("store poisoned".to_string()));
            assert_eq!(failure.request, Some(request("/", &[])));
        },
        other => panic!("the call did not fail: {other:?}"),
    }
    assert!(!runtime.states().requests.contains(call.handle));
}

#[test]
fn a_request_that_left_the_arena_is_an_internal_error() {
    let (mut runtime, id) = runtime_with(Interface::crossroads());
    let call = dispatched(runtime.call_handle(id, request("/", &[])));
    runtime.states_mut().requests.remove(call.handle).unwrap();
    assert!(matches!(runtime.resume(Event::Returned(Ok(()))), Action::PostReturn(_)));
    match runtime.resume(Event::CleanedUp) {
        Action::Done(Err(failure)) => {
            assert_eq!(failure.error, RuntimeError::Internal);
            assert_eq!(failure.request, None);
        },
        other => panic!("the call did not fail: {other:?}"),
    }
    assert!(runtime.is_idle());
}

#[test]
fn a_report_out_of_turn_gives_the_call_up() {
    let (mut runtime, id) = runtime_with(Interface::crossroads());
    match runtime.resume(Event::CleanedUp) {
        Action::Done(Err(failure)) => {
            assert_eq!(failure.error, RuntimeError::OutOfTurn);
            assert_eq!(failure.request, None);
        },
        other => panic!("the report was taken: {other:?}"),
    }
    let call = dispatched(runtime.call_handle(id, request("/a", &[])));
    match runtime.resume(Event::CleanedUp) {
        Action::Done(Err(failure)) => {
            assert_eq!(failure.error, RuntimeError::OutOfTurn);
            assert_eq!(failure.request, Some(request("/a", &[])));
        },
        other => panic!("the report was taken: {other:?}"),
    }
    assert!(!runtime.states().requests.contains(call.handle));
    let call = dispatched(runtime.call_handle(id, request("/b", &[])));
    assert!(matches!(runtime.resume(Event::Returned(Ok(()))), Action::PostReturn(_)));
    match runtime.resume(Event::Trapped("late".to_string())) {
        Action::Done(Err(failure)) => {
            assert_eq!(failure.error, RuntimeError::OutOfTurn);
            assert_eq!(failure.request, Some(request("/b", &[])));
        },
        other => panic!("the report was taken: {other:?}"),
    }
    assert!(!runtime.states().requests.contains(call.handle));
    assert!(runtime.is_idle());
}

#[test]
fn every_call_gets_a_handle_of_its_own() {
    let (mut runtime, id) = runtime_with(Interface::crossroads());
    let mut seen: Vec<RequestHandle> = Vec::new();
    for round in 0..20 {
        let call = dispatched(runtime.call_handle(id, request("/", &[])));
        assert!(!seen.contains(&call.handle));
        for old in &seen {
            assert!(!runtime.states().requests.contains(*old));
        }
        seen.push(call.handle);
        if round % 3 == 0 {
            assert!(matches!(runtime.resume(Event::Trapped("t".to_string())), Action::Done(Err(_))));
        } else {
            assert!(matches!(runtime.resume(Event::Returned(Ok(()))), Action::PostReturn(_)));
            assert!(matches!(runtime.resume(Event::CleanedUp), Action::Done(Ok(_))));
        }
    }
}

use runtime::component::split_host;
use runtime::{
    Action, Component, ComponentRunStates, Event, HostRequestState, Interface, LoadStep, Loader,
    RequestHandle, Router, Runtime, RuntimeError,
};

fn request(uri: &str, headers: &[(&str, &str)]) -> HostRequestState {
    HostRequestState::new(
        "GET".to_string(),
        uri.to_string(),
        headers.iter().map(|(n, v)| (n.to_string(), v.to_string())).collect(),
        b"<H1>Hello !</H1>".to_vec(),
    )
}

fn routed(uri: &str, headers: &[(&str, &str)]) -> (Result<(), String>, HostRequestState) {
    let mut states: ComponentRunStates<HostRequestState> = ComponentRunStates::new();
    let handle = states.requests.insert(request(uri, headers)).unwrap();
    let verdict = Component::handle(&mut states, handle);
    (verdict, states.requests.remove(handle).unwrap())
}

fn router(interface: Interface) -> Router {
    let mut loader = Loader::new(interface);
    loop {
        match loader.advance(true) {
            LoadStep::Pending(next) => loader = next,
            LoadStep::Loaded(router) => return router,
            LoadStep::Failed(error) => panic!("the load failed: {error:?}"),
        }
    }
}

#[test]
fn a_host_splits_at_its_first_dot() {
    let split = |host: &str| split_host(host);
    assert_eq!(split("a.b.c"), ("a".to_string(), "b.c".to_string()));
    assert_eq!(split("abc"), ("abc".to_string(), "".to_string()));
    assert_eq!(split(""), ("".to_string(), "".to_string()));
    assert_eq!(split(".b"), ("".to_string(), "b".to_string()));
    assert_eq!(split("a."), ("a".to_string(), "".to_string()));
    assert_eq!(split("a..b"), ("a".to_string(), ".b".to_string()));
    assert_eq!(split("\u{e9}t\u{e9}.example"), ("\u{e9}t\u{e9}".to_string(), "example".to_string()));
}

#[test]
fn the_tenant_moves_from_the_host_into_a_header() {
    let (verdict, after) = routed(
        "https://11111111-1111-1111-1111-111111111111.service.example/",
        &[("X-Custom-Foo", "Bar")],
    );
    assert_eq!(verdict, Ok(()));
    assert_eq!(
        after,
        request(
            "https://service.example/",
            &[
                ("X-Custom-Foo", "Bar"),
                ("UUID", "11111111-1111-1111-1111-111111111111"),
                ("HOST", "service.example"),
            ],
        )
    );
}

#[test]
fn path_and_query_survive_the_rewrite() {
    let (verdict, after) = routed(
        "https://faa4abb5-c37a-4ba1-89df-a12075997594.functions.runs.onstackit.cloud/v1/run?x=1&y=2",
        &[("host", "stale"), ("A", "1"), ("Host", "staler")],
    );
    assert_eq!(verdict, Ok(()));
    assert_eq!(after.uri, "https://functions.runs.onstackit.cloud/v1/run?x=1&y=2");
    assert_eq!(
        after.header_list(),
        vec![
            ("HOST".to_string(), "functions.runs.onstackit.cloud".to_string()),
            ("A".to_string(), "1".to_string()),
            ("UUID".to_string(), "faa4abb5-c37a-4ba1-89df-a12075997594".to_string()),
        ]
    );
}

#[test]
fn a_first_label_that_is_no_uuid_leaves_the_request_alone() {
    let uri = "https://notauuid.service.example/";
    let (verdict, after) = routed(uri, &[("A", "1")]);
    let message = verdict.unwrap_err();
    assert!(message.starts_with("Invalid subdomainUUID: "), "{message}");
    assert!(message.to_lowercase().contains("invalid subdomain"));
    assert!(message.len() > "Invalid subdomainUUID: ".len());
    assert_eq!(after, request(uri, &[("A", "1")]));
}

#[test]
fn a_target_that_is_no_url_leaves_the_request_alone() {
    for uri in ["/only/a/path", "", "service.example"] {
        let (verdict, after) = routed(uri, &[("A", "1")]);
        let message = verdict.unwrap_err();
        assert!(message.starts_with("Invalid URL: "), "{message}");
        assert!(message.len() > "Invalid URL: ".len());
        assert_eq!(after, request(uri, &[("A", "1")]));
    }
}

#[test]
fn a_url_without_a_host_leaves_the_request_alone() {
    let (verdict, after) = routed("mailto:someone@example.com", &[]);
    assert_eq!(verdict, Err("Uri has no host found".to_string()));
    assert_eq!(after, request("mailto:someone@example.com", &[]));
}

#[test]
fn a_host_of_one_label_fails_after_the_headers_are_written() {
    let uri = "https://11111111-1111-1111-1111-111111111111/";
    let (verdict, after) = routed(uri, &[("A", "1")]);
    let message = verdict.unwrap_err();
    assert!(message.starts_with("Invalid new host: "), "{message}");
    assert_eq!(
        after,
        request(uri, &[("A", "1"), ("UUID", "11111111-1111-1111-1111-111111111111"), ("HOST", "")])
    );
}

#[test]
fn a_stale_handle_is_reported_in_the_surface_s_words() {
    let mut states: ComponentRunStates<HostRequestState> = ComponentRunStates::new();
    let verdict = Component::handle(&mut states, RequestHandle { rep: 3 });
    assert_eq!(verdict, Err("Request not in resource table".to_string()));
}

#[test]
fn the_router_runs_as_the_guest_of_an_invocation() {
    let mut runtime: Runtime<HostRequestState> = Runtime::new();
    let id = runtime.add_instance(router(Interface::crossroads())).unwrap();
    let call = match runtime.call_handle(
        id,
        request("https://330752d1-487b-4c56-87a9-b4d3bfe946f1.functions.runs.onstackit.cloud", &[("X-Custom-Foo", "Bar")]),
    ) {
        Action::CallGuest(call) => call,
        other => panic!("the call did not start: {other:?}"),
    };
    let verdict = Component::handle(runtime.states_mut(), call.handle);
    assert!(matches!(runtime.resume(Event::Returned(verdict)), Action::PostReturn(_)));
    match runtime.resume(Event::CleanedUp) {
        Action::Done(Ok(after)) => assert_eq!(
            after,
            request(
                "https://functions.runs.onstackit.cloud/",
                &[
                    ("X-Custom-Foo", "Bar"),
                    ("UUID", "330752d1-487b-4c56-87a9-b4d3bfe946f1"),
                    ("HOST", "functions.runs.onstackit.cloud"),
                ],
            )
        ),
        other => panic!("the call did not complete: {other:?}"),
    }
}

#[test]
fn the_router_s_failure_becomes_the_invocation_s_failure() {
    let mut runtime: Runtime<HostRequestState> = Runtime::new();
    let id = runtime.add_instance(router(Interface::crossroads())).unwrap();
    let sent = request("https://notauuid.service.example/", &[("A", "1")]);
    let call = match runtime.call_handle(id, sent.clone()) {
        Action::CallGuest(call) => call,
        other => panic!("the call did not start: {other:?}"),
    };
    let verdict = Component::handle(runtime.states_mut(), call.handle);
    assert!(matches!(runtime.resume(Event::Returned(verdict)), Action::PostReturn(_)));
    match runtime.resume(Event::CleanedUp) {
        Action::Done(Err(failure)) => {
            match failure.error {
                RuntimeError::Plugin(message) => {
                    assert!(message.to_lowercase().contains("invalid subdomain"), "{message}")
                },
                other => panic!("not the plugin's failure: {other:?}"),
            }
            assert_eq!(failure.request, Some(sent));
        },
        other => panic!("the call did not fail: {other:?}"),
    }
    assert!(!runtime.states().requests.contains(call.handle));
}

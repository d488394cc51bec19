use runtime::{HandleError, HostRequestState, RequestArena, RequestHandle};

fn sample() -> HostRequestState {
    HostRequestState::new(
        "GET".to_string(),
        "https://example.com/a?b=c".to_string(),
        vec![
            ("X-Custom-Foo".to_string(), "Bar".to_string()),
            ("accept".to_string(), "*/*".to_string()),
            ("accept".to_string(), "text/html".to_string()),
        ],
        b"<H1>Hello !</H1>".to_vec(),
    )
}

#[test]
fn a_request_comes_back_as_it_went_in() {
    let mut arena: RequestArena<HostRequestState> = RequestArena::new();
    let handle = arena.insert(sample()).unwrap();
    let back = arena.remove(handle).unwrap();
    assert_eq!(back, sample());
    assert_eq!(back.headers[0], ("X-Custom-Foo".to_string(), "Bar".to_string()));
    assert_eq!(back.headers[2], ("accept".to_string(), "text/html".to_string()));
    assert_eq!(back.uri, "https://example.com/a?b=c");
}

#[test]
fn a_handle_is_live_from_insert_to_remove() {
    let mut arena: RequestArena<u64> = RequestArena::new();
    let stranger = RequestHandle { rep: 0 };
    assert!(!arena.contains(stranger));
    assert_eq!(arena.get(stranger), Err(HandleError::Unknown));
    let handle = arena.insert(41).unwrap();
    assert!(arena.contains(handle));
    assert_eq!(arena.get(handle), Ok(&41));
    assert_eq!(arena.remove(handle), Ok(41));
    assert!(!arena.contains(handle));
}

#[test]
fn a_removed_handle_names_nothing_ever_again() {
    let mut arena: RequestArena<u64> = RequestArena::new();
    let first = arena.insert(1).unwrap();
    assert_eq!(arena.remove(first), Ok(1));
    assert_eq!(arena.get(first), Err(HandleError::Unknown));
    assert!(matches!(arena.get_mut(first), Err(HandleError::Unknown)));
    assert_eq!(arena.remove(first), Err(HandleError::Unknown));
    for round in 0..100u64 {
        let next = arena.insert(round).unwrap();
        assert_ne!(next, first);
        assert_eq!(arena.get(first), Err(HandleError::Unknown));
        if round % 2 == 0 {
            assert_eq!(arena.remove(next), Ok(round));
        }
    }
    assert_eq!(arena.remove(first), Err(HandleError::Unknown));
}

#[test]
fn live_handles_never_alias() {
    let mut arena: RequestArena<usize> = RequestArena::new();
    let mut handles: Vec<RequestHandle> = Vec::new();
    for i in 0..50usize {
        let handle = arena.insert(i).unwrap();
        assert!(!handles.contains(&handle));
        handles.push(handle);
    }
    for (i, handle) in handles.iter().enumerate() {
        assert_eq!(arena.get(*handle), Ok(&i));
    }
}

#[test]
fn a_write_through_get_mut_stays_in_the_arena() {
    let mut arena: RequestArena<String> = RequestArena::new();
    let other = arena.insert("other".to_string()).unwrap();
    let handle = arena.insert("request".to_string()).unwrap();
    arena.get_mut(handle).unwrap().push_str(" rewritten");
    assert_eq!(arena.get(handle), Ok(&"request rewritten".to_string()));
    assert_eq!(arena.get(other), Ok(&"other".to_string()));
    assert_eq!(arena.remove(handle), Ok("request rewritten".to_string()));
}

#[test]
fn removing_one_request_leaves_the_others() {
    let mut arena: RequestArena<u8> = RequestArena::new();
    let a = arena.insert(1).unwrap();
    let b = arena.insert(2).unwrap();
    let c = arena.insert(3).unwrap();
    assert_eq!(arena.remove(b), Ok(2));
    assert_eq!(arena.get(a), Ok(&1));
    assert_eq!(arena.get(b), Err(HandleError::Unknown));
    assert_eq!(arena.get(c), Ok(&3));
}

use http_server::trash::{FindTrash, TrashAction, TrashEvent};

type Action = TrashAction<String, u64, &'static str, String>;
type Event = TrashEvent<String, &'static str, String>;

fn start(namespace_id: u64) -> (FindTrash<u64>, Action) {
    FindTrash::new(namespace_id)
}

fn feed(state: FindTrash<u64>, event: Event) -> (FindTrash<u64>, Action) {
    assert!(state.accepts(&event));
    state.step(event)
}

#[test]
fn members_get_the_trashed_conversations() {
    let (state, action) = start(7);
    assert!(matches!(action, TrashAction::ResolveCurrentUser));
    let (state, action) = feed(state, TrashEvent::CurrentUser(Ok("ada".to_string())));
    match action {
        TrashAction::CheckMembership { user, namespace_id } => {
            assert_eq!(user, "ada");
            assert_eq!(namespace_id, 7);
        }
        _ => panic!("expected a membership check"),
    }
    let (state, action) = feed(state, TrashEvent::Membership(Ok(())));
    match action {
        TrashAction::FindTrashed { namespace_id } => assert_eq!(namespace_id, 7),
        _ => panic!("expected the trash lookup"),
    }
    let (state, action) = feed(state, TrashEvent::Conversations(Ok(vec!["a", "b"])));
    match action {
        TrashAction::Reply(Ok(found)) => assert_eq!(found, vec!["a", "b"]),
        _ => panic!("expected the conversations"),
    }
    assert!(matches!(state, FindTrash::Finished));
}

#[test]
fn unknown_callers_get_the_error() {
    let (state, _) = start(1);
    let (state, action) = feed(state, TrashEvent::CurrentUser(Err("unauthenticated".to_string())));
    match action {
        TrashAction::Reply(Err(e)) => assert_eq!(e, "unauthenticated"),
        _ => panic!("expected the error"),
    }
    assert!(matches!(state, FindTrash::Finished));
    assert!(!state.accepts(&Event::Membership(Ok(()))));
}

#[test]
fn non_members_never_reach_the_trash() {
    let (state, _) = start(2);
    let (state, _) = feed(state, TrashEvent::CurrentUser(Ok("bob".to_string())));
    let (state, action) = feed(state, TrashEvent::Membership(Err("not a member".to_string())));
    match action {
        TrashAction::Reply(Err(e)) => assert_eq!(e, "not a member"),
        _ => panic!("expected the error"),
    }
    assert!(matches!(state, FindTrash::Finished));
}

#[test]
fn repository_errors_are_passed_on() {
    let (state, _) = start(3);
    let (state, _) = feed(state, TrashEvent::CurrentUser(Ok("cy".to_string())));
    let (state, _) = feed(state, TrashEvent::Membership(Ok(())));
    let (state, action) = feed(state, TrashEvent::Conversations(Err("database down".to_string())));
    match action {
        TrashAction::Reply(Err(e)) => assert_eq!(e, "database down"),
        _ => panic!("expected the error"),
    }
    assert!(matches!(state, FindTrash::Finished));
}

#[test]
fn events_out_of_order_are_not_accepted() {
    let (state, _) = start(4);
    assert!(!state.accepts(&Event::Membership(Ok(()))));
    assert!(!state.accepts(&Event::Conversations(Ok(vec![]))));
    assert!(state.accepts(&Event::CurrentUser(Ok("x".to_string()))));
}

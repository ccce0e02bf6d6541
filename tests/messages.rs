use edclass::ids::Uid;
use edclass::messages::{compose_message, fanout_after_write, in_scope, try_list_messages, new_message, update_state, with_state};
use edclass::model::{Message, MessageBody, MessageState, MessageType, ServiceError, User, UserRole};

fn user(n: u128, email: &str) -> User {
    User {
        uid: Uid { value: n },
        email: email.to_string(),
        role: UserRole::Student,
        name: "someone".to_string(),
        devices: Vec::new(),
    }
}

fn message(id: u128, sender: u128, to: &[&str], at: i64) -> Message {
    compose_message(
        Uid { value: id },
        Uid { value: sender },
        MessageBody {
            receiver_ids: to.iter().map(|s| s.to_string()).collect(),
            subject: Some(format!("subject {}", id)),
            content: format!("content {}", id),
        },
        at,
    )
}

fn ids(v: &[Message]) -> Vec<u128> {
    v.iter().map(|m| m.id.value).collect()
}

#[test]
fn inbox_lists_newest_first() {
    let me = user(1, "me@x");
    let a = message(10, 2, &["me@x"], 100);
    let b = message(11, 3, &["other@x", "me@x"], 200);
    let r = try_list_messages(vec![a, b], &me, MessageType::Received);
    assert_eq!(ids(&r), vec![11, 10]);
}

#[test]
fn listings_by_scope() {
    let me = user(1, "me@x");
    let msgs = || {
        vec![
            message(10, 2, &["me@x"], 100),
            message(11, 1, &["you@x"], 300),
            message(12, 2, &["you@x"], 400),
            message(13, 1, &["me@x"], 200),
        ]
    };
    assert_eq!(ids(&try_list_messages(msgs(), &me, MessageType::Received)), vec![13, 10]);
    assert_eq!(ids(&try_list_messages(msgs(), &me, MessageType::Sent)), vec![11, 13]);
    assert_eq!(ids(&try_list_messages(msgs(), &me, MessageType::All)), vec![11, 13, 10]);
    assert_eq!(try_list_messages(Vec::new(), &me, MessageType::All).len(), 0);
}

#[test]
fn scope_matches_email_exactly() {
    let me = user(1, "me@x");
    assert!(!in_scope(&message(10, 2, &["me@x.org"], 1), &me, MessageType::Received));
    assert!(in_scope(&message(10, 2, &["me@x"], 1), &me, MessageType::All));
    assert!(in_scope(&message(10, 1, &[], 1), &me, MessageType::All));
}

#[test]
fn new_message_is_pending() {
    let sender = user(5, "s@x");
    let m = new_message(
        &sender,
        MessageBody { receiver_ids: vec!["r@x".to_string()], subject: None, content: "hello".to_string() },
    );
    assert_eq!(m.sender_id, Uid { value: 5 });
    assert_eq!(m.receiver_ids, vec!["r@x".to_string()]);
    assert_eq!(m.subject, None);
    assert_eq!(m.content, "hello");
    assert_eq!(m.state, MessageState::Pending);
    assert!(m.created_at > 0);
}

#[test]
fn set_state_read_keeps_other_fields() {
    let m = message(10, 2, &["me@x"], 100);
    assert_eq!(m.state, MessageState::Pending);
    let r = update_state(Some(m.clone()), MessageState::Read).unwrap();
    assert_eq!(r.state, MessageState::Read);
    assert_eq!(r.id, m.id);
    assert_eq!(r.sender_id, m.sender_id);
    assert_eq!(r.receiver_ids, m.receiver_ids);
    assert_eq!(r.subject, m.subject);
    assert_eq!(r.content, m.content);
    assert_eq!(r.created_at, m.created_at);
    assert_eq!(with_state(r, MessageState::Failed).state, MessageState::Failed);
}

#[test]
fn set_state_of_missing_message() {
    assert_eq!(update_state(None, MessageState::Read).unwrap_err(), ServiceError::NotFound);
}

#[test]
fn written_message_is_fanned_out() {
    let m = message(10, 2, &["a@x", "b@x"], 100);
    let q = fanout_after_write(&m, Ok(())).unwrap();
    assert_eq!(q.emails, vec!["a@x", "b@x"]);
    assert_eq!(q.title, Some("subject 10".to_string()));
    assert_eq!(q.body, "content 10");
    assert_eq!(fanout_after_write(&m, Err(ServiceError::TransientStore)).unwrap_err(), ServiceError::TransientStore);
}

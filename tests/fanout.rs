use edclass::fanout::{
    batch_at, collect_devices, token_batches, Notify, NotifyAction, NotifyError, NotifyPhase,
    NotifyReport, MAX_TOKENS_PER_REQUEST,
};
use edclass::ids::Uid;
use edclass::model::{ServiceError, User, UserRole};

fn user(n: u128, email: &str, devices: &[&str]) -> User {
    User {
        uid: Uid { value: n },
        email: email.to_string(),
        role: UserRole::Parent,
        name: format!("user {}", n),
        devices: devices.iter().map(|d| d.to_string()).collect(),
    }
}

fn tokens(n: usize) -> Vec<String> {
    (0..n).map(|i| format!("tok{}", i)).collect()
}

#[test]
fn batches_of_2500_tokens() {
    let t = tokens(2500);
    let b = token_batches(&t, MAX_TOKENS_PER_REQUEST);
    assert_eq!(b.len(), 3);
    assert_eq!(b[0].len(), 1000);
    assert_eq!(b[1].len(), 1000);
    assert_eq!(b[2].len(), 500);
    assert_eq!(b[0][0], "tok0");
    assert_eq!(b[1][0], "tok1000");
    assert_eq!(b[2][499], "tok2499");
    let flat: Vec<String> = b.concat();
    assert_eq!(flat, t);
}

#[test]
fn batches_edge_sizes() {
    assert_eq!(token_batches(&tokens(0), 1000).len(), 0);
    let one = token_batches(&tokens(1000), 1000);
    assert_eq!(one.len(), 1);
    assert_eq!(one[0].len(), 1000);
    let two = token_batches(&tokens(1001), 1000);
    assert_eq!(two.len(), 2);
    assert_eq!(two[1], vec!["tok1000".to_string()]);
    assert_eq!(batch_at(&tokens(7), 3, 2), vec!["tok6".to_string()]);
}

#[test]
fn devices_flattened_in_order_with_duplicates() {
    let users = vec![user(1, "a@x", &["d1", "d2"]), user(2, "b@x", &[]), user(3, "c@x", &["d2", "d3"])];
    assert_eq!(collect_devices(&users), vec!["d1", "d2", "d2", "d3"]);
}

fn users_with_tokens(n: usize) -> Vec<User> {
    let mut u = user(9, "p@x", &[]);
    u.devices = tokens(n);
    vec![u]
}

#[test]
fn notify_pushes_three_batches_in_order() {
    let (mut n, a) = Notify::start(vec!["p@x".to_string()], Some("Hi".to_string()), "body".to_string());
    match a {
        NotifyAction::LookupRecipients(e) => assert_eq!(e, vec!["p@x".to_string()]),
        _ => panic!("expected a lookup"),
    }
    let mut sizes = Vec::new();
    let mut firsts = Vec::new();
    let mut act = n.on_recipients(Ok(users_with_tokens(2500)));
    loop {
        match act {
            NotifyAction::Push(p) => {
                assert_eq!(p.title, Some("Hi".to_string()));
                assert_eq!(p.body, "body");
                sizes.push(p.tokens.len());
                firsts.push(p.tokens[0].clone());
                act = n.on_push_result(true);
            }
            NotifyAction::Finished(r) => {
                assert_eq!(r, Ok(NotifyReport { batches: 3, delivered: 3, failed: 0 }));
                break;
            }
            NotifyAction::LookupRecipients(_) => panic!("unexpected lookup"),
        }
    }
    assert_eq!(sizes, vec![1000, 1000, 500]);
    assert_eq!(firsts, vec!["tok0", "tok1000", "tok2000"]);
}

#[test]
fn notify_failed_batch_does_not_stop_the_rest() {
    let (mut n, _) = Notify::start(vec!["p@x".to_string()], None, "body".to_string());
    let mut act = n.on_recipients(Ok(users_with_tokens(2500)));
    let mut attempted = 0;
    loop {
        match act {
            NotifyAction::Push(_) => {
                attempted += 1;
                act = n.on_push_result(attempted != 2);
            }
            NotifyAction::Finished(r) => {
                assert_eq!(r, Ok(NotifyReport { batches: 3, delivered: 2, failed: 1 }));
                break;
            }
            NotifyAction::LookupRecipients(_) => panic!("unexpected lookup"),
        }
    }
    assert_eq!(attempted, 3);
    assert_eq!(n.phase, NotifyPhase::Done);
}

#[test]
fn notify_unresolved_recipients_is_the_error() {
    let (mut n, _) = Notify::start(vec!["p@x".to_string()], None, "body".to_string());
    match n.on_recipients(Err(ServiceError::TransientStore)) {
        NotifyAction::Finished(r) => assert_eq!(r, Err(NotifyError::Unresolved)),
        _ => panic!("expected the end"),
    }
    assert_eq!(n.phase, NotifyPhase::Done);
}

#[test]
fn notify_without_devices_ends_at_once() {
    let (mut n, _) = Notify::start(vec!["p@x".to_string()], None, "body".to_string());
    match n.on_recipients(Ok(vec![user(1, "p@x", &[])])) {
        NotifyAction::Finished(r) => {
            assert_eq!(r, Ok(NotifyReport { batches: 0, delivered: 0, failed: 0 }))
        }
        _ => panic!("expected the end"),
    }
}

//! The message store's own logic: composing a message, choosing and ordering
//! the messages of a listing, and setting a message's state.

use vstd::prelude::*;
use vstd::multiset::Multiset;
use crate::ids::{Uid, fresh_uid, now_millis};
use crate::fanout::NotifyRequest;
use crate::model::{copy_opt_text, copy_texts, Message, MessageBody, MessageState, MessageType, User, ServiceError};

verus! {

/// `email` is among the recipients of `m`.
pub open spec fn addressed_to(m: Message, email: Seq<char>) -> bool {
    exists|i: int| 0 <= i < m.receiver_ids@.len() && #[trigger] m.receiver_ids@[i]@ == email
}

/// `m` belongs in a listing of `scope` for the user with `email` and `uid`:
/// received messages name the email among their recipients, sent ones have
/// the user as sender, and `All` takes both.
pub open spec fn in_scope_of(m: Message, email: Seq<char>, uid: Uid, scope: MessageType) -> bool {
    match scope {
        MessageType::Received => addressed_to(m, email),
        MessageType::Sent => m.sender_id == uid,
        MessageType::All => addressed_to(m, email) || m.sender_id == uid,
    }
}

/// Newest first: no message comes before a later-created one.
pub open spec fn newest_first(s: Seq<Message>) -> bool {
    forall|i: int, j: int| 0 <= i < j < s.len() ==> s[i].created_at >= s[j].created_at
}

/// `a` and `b` are the same message, field by field.
pub open spec fn same_message(a: Message, b: Message) -> bool {
    &&& a.id == b.id
    &&& a.sender_id == b.sender_id
    &&& a.receiver_ids@ == b.receiver_ids@
    &&& a.subject == b.subject
    &&& a.content == b.content
    &&& a.state == b.state
    &&& a.created_at == b.created_at
}

/// The message that `sender_id` sends with `body`, persisted under `id` at
/// `created_at`: it starts `Pending`.
pub fn compose_message(id: Uid, sender_id: Uid, body: MessageBody, created_at: i64) -> (r: Message)
    ensures
        r.id == id,
        r.sender_id == sender_id,
        r.receiver_ids == body.receiver_ids,
        r.subject == body.subject,
        r.content == body.content,
        r.state == MessageState::Pending,
        r.created_at == created_at,
{
    Message {
        id,
        sender_id,
        receiver_ids: body.receiver_ids,
        subject: body.subject,
        content: body.content,
        state: MessageState::Pending,
        created_at,
    }
}

/// A new message from `sender` with `body`, under a fresh identifier and
/// stamped with the current time. It starts `Pending`.
pub fn new_message(sender: &User, body: MessageBody) -> (r: Message)
    ensures
        r.sender_id == sender.uid,
        r.receiver_ids == body.receiver_ids,
        r.subject == body.subject,
        r.content == body.content,
        r.state == MessageState::Pending,
{
    let id = fresh_uid();
    let now = now_millis();
    compose_message(id, sender.uid, body, now)
}

/// Whether `email` is among the recipients of `m`.
pub fn is_addressed_to(m: &Message, email: &String) -> (r: bool)
    ensures
        r == addressed_to(*m, email@),
{
    let mut i: usize = 0;
    while i < m.receiver_ids.len()
        invariant
            i <= m.receiver_ids.len(),
            forall|k: int| 0 <= k < i ==> #[trigger] m.receiver_ids@[k]@ != email@,
        decreases m.receiver_ids.len() - i,
    {
        if m.receiver_ids[i] == *email {
            return true;
        }
        i = i + 1;
    }
    false
}

/// Whether `m` belongs in `user`'s listing of `scope`.
pub fn in_scope(m: &Message, user: &User, scope: MessageType) -> (r: bool)
    ensures
        r == in_scope_of(*m, user.email@, user.uid, scope),
{
    match scope {
        MessageType::Received => is_addressed_to(m, &user.email),
        MessageType::Sent => m.sender_id == user.uid,
        MessageType::All => is_addressed_to(m, &user.email) || m.sender_id == user.uid,
    }
}

/// The messages of `candidates` that belong in `user`'s listing of `scope`,
/// each as often as it occurs there.
pub fn keep_in_scope(candidates: Vec<Message>, user: &User, scope: MessageType) -> (r: Vec<Message>)
    ensures
        forall|m: Message| #[trigger] r@.to_multiset().count(m)
            == if in_scope_of(m, user.email@, user.uid, scope) { candidates@.to_multiset().count(m) } else { 0 },
{
    broadcast use vstd::seq_lib::group_to_multiset_ensures, vstd::multiset::group_multiset_axioms;
    let ghost orig = candidates@;
    let mut rest = candidates;
    let mut kept: Vec<Message> = Vec::new();
    while rest.len() > 0
        invariant
            forall|m: Message| #[trigger] kept@.to_multiset().count(m)
                + (if in_scope_of(m, user.email@, user.uid, scope) { rest@.to_multiset().count(m) } else { 0 })
                == if in_scope_of(m, user.email@, user.uid, scope) { orig.to_multiset().count(m) } else { 0 },
        decreases rest.len(),
    {
        let ghost before = rest@;
        let m = rest.pop().unwrap();
        assert(before =~= rest@.push(m));
        proof { vstd::seq_lib::to_multiset_build(rest@, m); }
        let ghost kept_before = kept@;
        if in_scope(&m, user, scope) {
            kept.push(m);
            proof { vstd::seq_lib::to_multiset_build(kept_before, m); }
        }
    }
    assert(rest@.to_multiset() =~= Multiset::empty());
    kept
}

/// `v` reordered newest first.
pub fn sort_newest_first(v: Vec<Message>) -> (r: Vec<Message>)
    ensures
        newest_first(r@),
        r@.to_multiset() == v@.to_multiset(),
{
    broadcast use vstd::seq_lib::group_to_multiset_ensures, vstd::multiset::group_multiset_axioms;
    let ghost orig = v@;
    let mut rest = v;
    let mut r: Vec<Message> = Vec::new();
    while rest.len() > 0
        invariant
            newest_first(r@),
            r@.to_multiset().add(rest@.to_multiset()) == orig.to_multiset(),
            forall|i: int, j: int| 0 <= i < r@.len() && 0 <= j < rest@.len() ==> r@[i].created_at >= rest@[j].created_at,
        decreases rest.len(),
    {
        let mut best: usize = 0;
        let mut k: usize = 1;
        while k < rest.len()
            invariant
                0 < rest.len(),
                best < rest.len(),
                1 <= k <= rest.len(),
                forall|j: int| 0 <= j < k ==> rest@[j].created_at <= rest@[best as int].created_at,
            decreases rest.len() - k,
        {
            if rest[k].created_at > rest[best].created_at {
                best = k;
            }
            k = k + 1;
        }
        let ghost before = rest@;
        let m = rest.remove(best);
        assert(before.to_multiset() =~= rest@.to_multiset().insert(m)) by {
            vstd::seq_lib::to_multiset_remove(before, best as int);
            assert(before.to_multiset().count(m) > 0) by {
                assert(before[best as int] == m);
                assert(before.contains(m));
                vstd::seq_lib::to_multiset_contains(before, m);
            };
        };
        assert forall|j: int| 0 <= j < rest@.len() implies m.created_at >= rest@[j].created_at by {
            if j < best {
                assert(rest@[j] == before[j]);
            } else {
                assert(rest@[j] == before[j + 1]);
            }
        };
        let ghost r_before = r@;
        r.push(m);
        proof { vstd::seq_lib::to_multiset_build(r_before, m); }
        assert(r@.to_multiset().add(rest@.to_multiset()) =~= orig.to_multiset());
    }
    assert(rest@.to_multiset() =~= Multiset::empty());
    assert(r@.to_multiset().add(rest@.to_multiset()) =~= r@.to_multiset());
    r
}

/// The listing of `scope` for `user` drawn from `candidates`: the messages
/// that belong there, each as often as it occurs, newest first.
pub fn try_list_messages(candidates: Vec<Message>, user: &User, scope: MessageType) -> (r: Vec<Message>)
    ensures
        newest_first(r@),
        forall|m: Message| #[trigger] r@.to_multiset().count(m)
            == if in_scope_of(m, user.email@, user.uid, scope) { candidates@.to_multiset().count(m) } else { 0 },
{
    let kept = keep_in_scope(candidates, user, scope);
    sort_newest_first(kept)
}

/// What follows the write of the new message `m`: where the write went
/// through, the fan-out of its subject and content to its recipients;
/// otherwise the store's failure, and no notification.
pub fn fanout_after_write(m: &Message, written: Result<(), ServiceError>) -> (r: Result<NotifyRequest, ServiceError>)
    ensures
        written is Err ==> r == Err::<NotifyRequest, ServiceError>(written->Err_0),
        written is Ok ==> r is Ok
            && r->Ok_0.emails@ == m.receiver_ids@
            && r->Ok_0.title == m.subject
            && r->Ok_0.body == m.content,
{
    match written {
        Ok(()) => Ok(NotifyRequest {
            emails: copy_texts(&m.receiver_ids),
            title: copy_opt_text(&m.subject),
            body: m.content.clone(),
        }),
        Err(e) => Err(e),
    }
}

/// `m` with its state set to `state`; every other field is kept.
pub fn with_state(m: Message, state: MessageState) -> (r: Message)
    ensures
        r == (Message { state, ..m }),
{
    Message { state, ..m }
}

/// Sets the state of the message that a lookup `found`: the message to write
/// back, or `NotFound` where there was none. Any state may follow any other.
pub fn update_state(found: Option<Message>, state: MessageState) -> (r: Result<Message, ServiceError>)
    ensures
        r == state_set(found, state),
{
    match found {
        Some(m) => Ok(with_state(m, state)),
        None => Err(ServiceError::NotFound),
    }
}

} // verus!

verus! {

/// What setting the state of the message that a lookup `found` gives.
pub open spec fn state_set(found: Option<Message>, state: MessageState) -> Result<Message, ServiceError> {
    match found {
        Some(m) => Ok(Message { state, ..m }),
        None => Err(ServiceError::NotFound),
    }
}

/// Setting a message's state to `state` changes that field alone: identifier,
/// sender, recipients, subject, content and creation time are kept, and the
/// message written back holds `state`.
pub proof fn lemma_set_state_changes_state_only(m: Message, state: MessageState)
    ensures
        state_set(Some(m), state) is Ok,
        state_set(Some(m), state)->Ok_0.state == state,
        same_message(state_set(Some(m), state)->Ok_0, Message { state, ..m }),
        state_set(Some(m), state)->Ok_0.id == m.id,
        state_set(Some(m), state)->Ok_0.sender_id == m.sender_id,
        state_set(Some(m), state)->Ok_0.receiver_ids@ == m.receiver_ids@,
        state_set(Some(m), state)->Ok_0.subject == m.subject,
        state_set(Some(m), state)->Ok_0.content == m.content,
        state_set(Some(m), state)->Ok_0.created_at == m.created_at,
{
}

} // verus!

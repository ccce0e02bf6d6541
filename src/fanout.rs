//! Notification fan-out: recipients to device tokens, tokens to bounded
//! batches, one push request per batch.

use vstd::prelude::*;
use crate::model::{User, ServiceError, copy_opt_text, copy_texts};

verus! {

/// The largest number of device tokens that one push request carries.
pub const MAX_TOKENS_PER_REQUEST: usize = 1000;

/// The device tokens of `users`, user by user, each user's in its own order.
/// A token that two users share appears twice.
pub open spec fn devices_of(users: Seq<User>) -> Seq<String>
    decreases users.len(),
{
    if users.len() == 0 {
        Seq::empty()
    } else {
        devices_of(users.drop_last()) + users.last().devices@
    }
}

/// The end of the `i`-th batch of `n` tokens cut into batches of `size`.
pub open spec fn batch_end(n: int, size: int, i: int) -> int {
    if (i + 1) * size < n {
        (i + 1) * size
    } else {
        n
    }
}

/// The `i`-th batch: the tokens from `i * size` up to the next batch.
pub open spec fn batch_of(tokens: Seq<String>, size: int, i: int) -> Seq<String> {
    tokens.subrange(i * size, batch_end(tokens.len() as int, size, i))
}

/// `k` batches of `size` are what `n` tokens need: enough to hold them all,
/// and none of them empty.
pub open spec fn is_batch_count(n: int, size: int, k: int) -> bool {
    &&& k * size >= n
    &&& (k == 0 || (k - 1) * size < n)
}

/// The device tokens of all `users`, in order, duplicates kept.
pub fn collect_devices(users: &Vec<User>) -> (r: Vec<String>)
    ensures
        r@ == devices_of(users@),
{
    let mut r: Vec<String> = Vec::new();
    let mut i: usize = 0;
    while i < users.len()
        invariant
            i <= users.len(),
            r@ == devices_of(users@.subrange(0, i as int)),
        decreases users.len() - i,
    {
        let d = &users[i].devices;
        let ghost before = r@;
        let mut j: usize = 0;
        while j < d.len()
            invariant
                j <= d.len(),
                r@ == before + d@.subrange(0, j as int),
            decreases d.len() - j,
        {
            r.push(d[j].clone());
            j = j + 1;
            assert(r@ =~= before + d@.subrange(0, j as int));
        }
        assert(users@.subrange(0, i + 1).drop_last() =~= users@.subrange(0, i as int));
        assert(d@.subrange(0, j as int) =~= d@);
        i = i + 1;
    }
    assert(users@.subrange(0, users.len() as int) =~= users@);
    r
}

/// The `i`-th batch of `tokens` cut into batches of `size`.
pub fn batch_at(tokens: &Vec<String>, size: usize, i: usize) -> (r: Vec<String>)
    requires
        size > 0,
        i * size < tokens.len(),
    ensures
        r@ == batch_of(tokens@, size as int, i as int),
{
    let n = tokens.len();
    let start: usize = i * size;
    let end: usize = if n - start > size { start + size } else { n };
    assert((i + 1) * size == i * size + size) by (nonlinear_arith);
    let mut r: Vec<String> = Vec::new();
    let mut j: usize = start;
    while j < end
        invariant
            start <= j <= end <= n == tokens.len(),
            r@ == tokens@.subrange(start as int, j as int),
        decreases end - j,
    {
        r.push(tokens[j].clone());
        j = j + 1;
        assert(r@ =~= tokens@.subrange(start as int, j as int));
    }
    r
}

/// `tokens` cut into contiguous batches of at most `size`, in order: every
/// batch but the last holds exactly `size` tokens.
pub fn token_batches(tokens: &Vec<String>, size: usize) -> (r: Vec<Vec<String>>)
    requires
        size > 0,
    ensures
        is_batch_count(tokens.len() as int, size as int, r.len() as int),
        forall|i: int| 0 <= i < r.len() ==> #[trigger] r[i]@ == batch_of(tokens@, size as int, i),
{
    let n = tokens.len();
    let mut r: Vec<Vec<String>> = Vec::new();
    let mut start: usize = 0;
    assert(r.len() * size == 0) by (nonlinear_arith)
        requires
            r.len() == 0,
    ;
    while start < n
        invariant
            n == tokens.len(),
            size > 0,
            start <= n,
            start < n ==> start == r.len() * size,
            is_batch_count(start as int, size as int, r.len() as int),
            forall|i: int| 0 <= i < r.len() ==> #[trigger] r[i]@ == batch_of(tokens@, size as int, i),
        decreases n - start,
    {
        let k = r.len();
        let b = batch_at(tokens, size, k);
        r.push(b);
        assert((k + 1) * size == k * size + size) by (nonlinear_arith);
        start = if n - start > size { start + size } else { n };
    }
    r
}

} // verus!

verus! {

/// A notification to fan out to the devices of the users with `emails`.
#[derive(Debug)]
pub struct NotifyRequest {
    pub emails: Vec<String>,
    pub title: Option<String>,
    pub body: String,
}

/// One push request: a batch of device tokens with the notification text.
#[derive(Debug, Clone)]
pub struct PushRequest {
    pub tokens: Vec<String>,
    pub title: Option<String>,
    pub body: String,
}

/// How a fan-out went: how many batches it had, and how many of them the
/// gateway took or refused.
#[derive(Debug, Clone, Copy, PartialEq, Eq, Structural)]
pub struct NotifyReport {
    pub batches: usize,
    pub delivered: usize,
    pub failed: usize,
}

/// The one failure a fan-out reports: its recipients could not be looked up.
/// A batch that the gateway refuses is counted, not reported.
#[derive(Debug, Clone, Copy, PartialEq, Eq, Structural)]
pub enum NotifyError {
    Unresolved,
}

/// Where a fan-out stands.
#[derive(Debug, Clone, Copy, PartialEq, Eq, Structural)]
pub enum NotifyPhase {
    /// Waiting for the users behind the recipient emails.
    AwaitRecipients,
    /// Waiting for the gateway's answer to the batch at `next`.
    Pushing,
    /// Finished; `outcome` holds the result.
    Done,
}

/// What the caller is to do next for a fan-out.
#[derive(Debug)]
pub enum NotifyAction {
    /// Look up the users with these emails, in one batched lookup.
    LookupRecipients(Vec<String>),
    /// Send this request to the push gateway, once.
    Push(PushRequest),
    /// The fan-out is over.
    Finished(Result<NotifyReport, NotifyError>),
}

/// A notification on its way to the devices of its recipients.
///
/// The caller performs each action and hands the answer back; every batch is
/// attempted exactly once, in order, whatever became of the others.
#[derive(Debug)]
pub struct Notify {
    pub phase: NotifyPhase,
    pub title: Option<String>,
    pub body: String,
    pub tokens: Vec<String>,
    /// The tokens cut into batches, pushed in this order.
    pub queue: Vec<Vec<String>>,
    pub batches: usize,
    pub next: usize,
    pub delivered: usize,
    pub failed: usize,
    pub outcome: Option<Result<NotifyReport, NotifyError>>,
}

/// The report of the batches attempted so far.
pub open spec fn report_of(n: Notify) -> NotifyReport {
    NotifyReport { batches: n.batches, delivered: n.delivered, failed: n.failed }
}

/// `a` asks for the push of batch `i` of `n`.
pub open spec fn is_push_of(a: NotifyAction, n: Notify, i: int) -> bool {
    match a {
        NotifyAction::Push(p) => {
            &&& p.tokens@ == batch_of(n.tokens@, MAX_TOKENS_PER_REQUEST as int, i)
            &&& p.title == n.title
            &&& p.body == n.body
        },
        _ => false,
    }
}

/// The fan-out after the gateway answered the current batch with `ok`.
pub open spec fn after_push(n: Notify, ok: bool) -> Notify {
    let next = (n.next + 1) as usize;
    let delivered = if ok { (n.delivered + 1) as usize } else { n.delivered };
    let failed = if ok { n.failed } else { (n.failed + 1) as usize };
    let done = next >= n.batches;
    Notify {
        phase: if done { NotifyPhase::Done } else { NotifyPhase::Pushing },
        next,
        delivered,
        failed,
        outcome: if done {
            Some(Ok(NotifyReport { batches: n.batches, delivered, failed }))
        } else {
            None
        },
        ..n
    }
}

/// The fan-out after the gateway answered its batches with `outcomes`, one
/// answer per batch, while batches remain.
pub open spec fn after_pushes(n: Notify, outcomes: Seq<bool>) -> Notify
    decreases outcomes.len(),
{
    if outcomes.len() == 0 || n.phase != NotifyPhase::Pushing {
        n
    } else {
        after_pushes(after_push(n, outcomes[0]), outcomes.drop_first())
    }
}

/// The number of `true` answers in `s`.
pub open spec fn count_true(s: Seq<bool>) -> nat
    decreases s.len(),
{
    if s.len() == 0 {
        0
    } else {
        (if s[0] { 1nat } else { 0nat }) + count_true(s.drop_first())
    }
}

impl Notify {
    /// The fan-out's own consistency: the queue holds the tokens' batches,
    /// the counters add up to the batches attempted, and the phase matches.
    pub open spec fn wf(&self) -> bool {
        &&& self.delivered + self.failed == self.next
        &&& self.next <= self.batches
        &&& self.queue@.len() == self.batches
        &&& forall|i: int| 0 <= i < self.batches ==> #[trigger] self.queue@[i]@ == batch_of(self.tokens@, MAX_TOKENS_PER_REQUEST as int, i)
        &&& match self.phase {
            NotifyPhase::AwaitRecipients => {
                &&& self.next == 0
                &&& self.batches == 0
                &&& self.tokens@.len() == 0
                &&& self.outcome.is_none()
            },
            NotifyPhase::Pushing => {
                &&& is_batch_count(self.tokens@.len() as int, MAX_TOKENS_PER_REQUEST as int, self.batches as int)
                &&& self.next < self.batches
                &&& self.outcome.is_none()
            },
            NotifyPhase::Done => self.outcome.is_some(),
        }
    }

    /// Starts a notification to the users with `emails`: the first action
    /// looks them up.
    pub fn start(emails: Vec<String>, title: Option<String>, body: String) -> (r: (Notify, NotifyAction))
        ensures
            r.0.wf(),
            r.0.phase == NotifyPhase::AwaitRecipients,
            r.0.title == title,
            r.0.body == body,
            r.1 == NotifyAction::LookupRecipients(emails),
    {
        let n = Notify {
            phase: NotifyPhase::AwaitRecipients,
            title,
            body,
            tokens: Vec::new(),
            queue: Vec::new(),
            batches: 0,
            next: 0,
            delivered: 0,
            failed: 0,
            outcome: None,
        };
        (n, NotifyAction::LookupRecipients(emails))
    }

    /// Takes the answer of the recipient lookup. A failed lookup ends the
    /// fan-out with `Unresolved`; otherwise the recipients' device tokens are
    /// cut into batches and the first batch is pushed. With no token at all
    /// the fan-out ends at once, successfully.
    pub fn on_recipients(&mut self, found: Result<Vec<User>, ServiceError>) -> (r: NotifyAction)
        requires
            old(self).wf(),
            old(self).phase == NotifyPhase::AwaitRecipients,
        ensures
            final(self).wf(),
            final(self).title == old(self).title,
            final(self).body == old(self).body,
            match found {
                Err(_) => {
                    &&& final(self).phase == NotifyPhase::Done
                    &&& final(self).outcome == Some(Err::<NotifyReport, NotifyError>(NotifyError::Unresolved))
                    &&& r == NotifyAction::Finished(Err(NotifyError::Unresolved))
                },
                Ok(users) => {
                    &&& final(self).tokens@ == devices_of(users@)
                    &&& is_batch_count(devices_of(users@).len() as int, MAX_TOKENS_PER_REQUEST as int, final(self).batches as int)
                    &&& final(self).next == 0
                    &&& final(self).delivered == 0
                    &&& final(self).failed == 0
                    &&& if devices_of(users@).len() == 0 {
                        &&& final(self).phase == NotifyPhase::Done
                        &&& final(self).outcome == Some(Ok::<NotifyReport, NotifyError>(report_of(*final(self))))
                        &&& r == NotifyAction::Finished(Ok(report_of(*final(self))))
                    } else {
                        &&& final(self).phase == NotifyPhase::Pushing
                        &&& is_push_of(r, *final(self), 0)
                    }
                },
            },
    {
        match found {
            Err(_) => {
                self.phase = NotifyPhase::Done;
                self.outcome = Some(Err(NotifyError::Unresolved));
                NotifyAction::Finished(Err(NotifyError::Unresolved))
            },
            Ok(users) => {
                let tokens = collect_devices(&users);
                let n = tokens.len();
                let queue = token_batches(&tokens, MAX_TOKENS_PER_REQUEST);
                self.batches = queue.len();
                self.tokens = tokens;
                self.queue = queue;
                if n == 0 {
                    self.phase = NotifyPhase::Done;
                    let report = NotifyReport { batches: 0, delivered: 0, failed: 0 };
                    self.outcome = Some(Ok(report));
                    NotifyAction::Finished(Ok(report))
                } else {
                    self.phase = NotifyPhase::Pushing;
                    self.push_current()
                }
            },
        }
    }

    /// The push of the batch at `next`.
    fn push_current(&self) -> (r: NotifyAction)
        requires
            self.wf(),
            self.phase == NotifyPhase::Pushing,
        ensures
            is_push_of(r, *self, self.next as int),
    {
        let tokens = copy_texts(&self.queue[self.next]);
        NotifyAction::Push(PushRequest {
            tokens,
            title: copy_opt_text(&self.title),
            body: self.body.clone(),
        })
    }

    /// Takes the gateway's answer to the current batch: `ok` counts it as
    /// delivered, otherwise as failed. Either way the next batch is pushed;
    /// after the last one the fan-out ends successfully with its report.
    pub fn on_push_result(&mut self, ok: bool) -> (r: NotifyAction)
        requires
            old(self).wf(),
            old(self).phase == NotifyPhase::Pushing,
        ensures
            final(self).wf(),
            *final(self) == after_push(*old(self), ok),
            final(self).phase == NotifyPhase::Pushing ==> is_push_of(r, *final(self), final(self).next as int),
            final(self).phase == NotifyPhase::Done ==> r == NotifyAction::Finished(Ok(report_of(*final(self)))),
    {
        self.next = self.next + 1;
        if ok {
            self.delivered = self.delivered + 1;
        } else {
            self.failed = self.failed + 1;
        }
        if self.next >= self.batches {
            self.phase = NotifyPhase::Done;
            let report = NotifyReport { batches: self.batches, delivered: self.delivered, failed: self.failed };
            self.outcome = Some(Ok(report));
            NotifyAction::Finished(Ok(report))
        } else {
            self.push_current()
        }
    }
}

} // verus!

verus! {

/// Whatever the gateway answers, a fan-out that is pushing attempts each of
/// its remaining batches once, in order, and ends successfully: a refused
/// batch is counted as failed and stops nothing.
pub proof fn lemma_every_batch_attempted(n: Notify, outcomes: Seq<bool>)
    requires
        n.wf(),
        n.phase == NotifyPhase::Pushing,
        outcomes.len() == n.batches - n.next,
    ensures
        after_pushes(n, outcomes).wf(),
        after_pushes(n, outcomes).phase == NotifyPhase::Done,
        after_pushes(n, outcomes).next == n.batches,
        after_pushes(n, outcomes).delivered == n.delivered + count_true(outcomes),
        after_pushes(n, outcomes).failed == n.failed + outcomes.len() - count_true(outcomes),
        after_pushes(n, outcomes).outcome == Some(Ok::<NotifyReport, NotifyError>(report_of(after_pushes(n, outcomes)))),
    decreases outcomes.len(),
{
    let m = after_push(n, outcomes[0]);
    let rest = outcomes.drop_first();
    if outcomes.len() == 1 {
        assert(rest.len() == 0);
        assert(count_true(rest) == 0);
        assert(after_pushes(m, rest) == m);
    } else {
        lemma_every_batch_attempted(m, rest);
    }
}

} // verus!

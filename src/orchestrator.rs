//! The enroll-then-notify workflow as a step machine.
//!
//! The caller performs each action against the store and the directory and
//! hands back the answer as the next event. The flow validates the role,
//! writes the enrollment where none exists for its pair, gathers the
//! guardians and the teacher, composes one system message to them, and asks
//! for it to be persisted and fanned out. Once the enrollment stands, no later
//! failure undoes it.

use vstd::prelude::*;
use crate::ids::{Uid, fresh_uid, uid_text, uid_text_of};
use crate::fanout::NotifyRequest;
use crate::ledger::{has_pair, needs_insert};
use crate::messages::new_message;
use crate::model::{Enrollment, Message, MessageBody, MessageState, ServiceError, User, UserRole, copy_texts};

verus! {

/// Where an enrollment flow stands.
#[derive(Debug, Clone, Copy, PartialEq, Eq, Structural)]
pub enum EnrollPhase {
    /// Waiting for the enrollments already recorded for the pair.
    AwaitExisting,
    /// Waiting for the new enrollment to be written.
    AwaitInsert,
    /// Waiting for the student's guardians.
    AwaitGuardians,
    /// Waiting for the course's teacher.
    AwaitTeacher,
    /// Waiting for the system user, the sender of the notice.
    AwaitSystemUser,
    /// Waiting for the notice to be persisted.
    AwaitPersist,
    /// Waiting for the notice's fan-out to end.
    AwaitNotify,
    /// Finished; `outcome` holds the result.
    Done,
}

/// The order of the phases: a flow only ever moves forward.
pub open spec fn rank(p: EnrollPhase) -> int {
    match p {
        EnrollPhase::AwaitExisting => 1,
        EnrollPhase::AwaitInsert => 2,
        EnrollPhase::AwaitGuardians => 3,
        EnrollPhase::AwaitTeacher => 4,
        EnrollPhase::AwaitSystemUser => 5,
        EnrollPhase::AwaitPersist => 6,
        EnrollPhase::AwaitNotify => 7,
        EnrollPhase::Done => 8,
    }
}

/// An answer that the caller hands back to the flow.
#[derive(Debug)]
pub enum EnrollEvent {
    /// The enrollments recorded for the pair, or the failed lookup.
    Enrollments(Result<Vec<Enrollment>, ServiceError>),
    /// The write of the new enrollment went through, or failed.
    Inserted(Result<(), ServiceError>),
    /// The student's guardians, or the failed lookup.
    Guardians(Result<Vec<User>, ServiceError>),
    /// The course's teacher, if there is one, or the failed lookup.
    Teacher(Result<Option<User>, ServiceError>),
    /// The system user, if there is one, or the failed lookup.
    SystemUser(Result<Option<User>, ServiceError>),
    /// The notice was persisted, or the write failed.
    Persisted(Result<(), ServiceError>),
    /// The notice's fan-out has ended, whatever it delivered.
    Notified,
}

/// What the caller is to do next for an enrollment flow.
#[derive(Debug)]
pub enum EnrollAction {
    /// Look up the enrollments recorded for this (course, student) pair.
    FindEnrollments { course_id: Uid, student_id: Uid },
    /// Write this enrollment.
    InsertEnrollment(Enrollment),
    /// Look up the guardians of this student.
    FindGuardians(Uid),
    /// Look up the teacher of this course.
    FindTeacher(Uid),
    /// Look up the system user.
    FindSystemUser,
    /// Persist this message.
    PersistMessage(Message),
    /// Fan this notification out.
    Notify(NotifyRequest),
    /// The flow is over.
    Finished(Result<Enrollment, ServiceError>),
}

/// An enrollment on its way through the workflow.
#[derive(Debug)]
pub struct EnrollFlow {
    pub phase: EnrollPhase,
    pub enrollment: Enrollment,
    /// Whether this flow wrote the enrollment.
    pub created: bool,
    /// The emails that the notice goes to.
    pub recipients: Vec<String>,
    /// The text of the notice.
    pub notice: String,
    pub outcome: Option<Result<Enrollment, ServiceError>>,
}

/// The subject of the enrollment notice.
pub open spec fn notice_subject() -> Seq<char> {
    "Enrollment"@
}

/// The text of the enrollment notice: the enrollment written out field by
/// field.
pub open spec fn notice_text(e: Enrollment) -> Seq<char> {
    "Your kid is enrolled in course Enrollment { id: "@ + uid_text_of(e.id.value) + ", course_id: "@
        + uid_text_of(e.course_id.value) + ", student_id: "@ + uid_text_of(e.student_id.value)
        + " }"@
}

/// The emails of `users`, in order.
pub open spec fn emails_of(users: Seq<User>) -> Seq<String> {
    users.map_values(|u: User| u.email)
}

/// The event `e` answers the action of a flow in phase `p`.
pub open spec fn answers(p: EnrollPhase, e: EnrollEvent) -> bool {
    match p {
        EnrollPhase::AwaitExisting => e is Enrollments,
        EnrollPhase::AwaitInsert => e is Inserted,
        EnrollPhase::AwaitGuardians => e is Guardians,
        EnrollPhase::AwaitTeacher => e is Teacher,
        EnrollPhase::AwaitSystemUser => e is SystemUser,
        EnrollPhase::AwaitPersist => e is Persisted,
        EnrollPhase::AwaitNotify => e is Notified,
        EnrollPhase::Done => false,
    }
}

/// `g` is `f` moved to phase `p`, with the enrollment, the notice and the
/// (absent) outcome kept.
pub open spec fn moved(f: EnrollFlow, g: EnrollFlow, p: EnrollPhase) -> bool {
    &&& g.phase == p
    &&& g.enrollment == f.enrollment
    &&& g.notice@ == f.notice@
    &&& g.outcome == f.outcome
}

/// `g` is `f` moved to phase `p`, all else kept.
pub open spec fn moved_only(f: EnrollFlow, g: EnrollFlow, p: EnrollPhase) -> bool {
    &&& moved(f, g, p)
    &&& g.created == f.created
    &&& g.recipients@ == f.recipients@
}

/// `g` is `f` finished with `res`, announced by `a`.
pub open spec fn finished(f: EnrollFlow, g: EnrollFlow, a: EnrollAction, res: Result<Enrollment, ServiceError>) -> bool {
    &&& g.phase == EnrollPhase::Done
    &&& g.enrollment == f.enrollment
    &&& g.created == f.created
    &&& g.recipients@ == f.recipients@
    &&& g.notice@ == f.notice@
    &&& g.outcome == Some(res)
    &&& a == EnrollAction::Finished(res)
}

/// `m` is the enrollment notice of `f`, sent by `sender`.
pub open spec fn is_notice(m: Message, f: EnrollFlow, sender: Uid) -> bool {
    &&& m.sender_id == sender
    &&& m.receiver_ids@ == f.recipients@
    &&& m.subject is Some
    &&& m.subject->Some_0@ == notice_subject()
    &&& m.content@ == notice_text(f.enrollment)
    &&& m.state == MessageState::Pending
}

/// `q` fans the enrollment notice of `f` out to its recipients.
pub open spec fn is_notice_fanout(q: NotifyRequest, f: EnrollFlow) -> bool {
    &&& q.emails@ == f.recipients@
    &&& q.title is Some
    &&& q.title->Some_0@ == notice_subject()
    &&& q.body@ == notice_text(f.enrollment)
}

/// One step of the flow: `f` takes the answer `e` and becomes `g`, asking
/// for `a` next.
pub open spec fn next(f: EnrollFlow, e: EnrollEvent, g: EnrollFlow, a: EnrollAction) -> bool {
    let student = f.enrollment.student_id;
    let course = f.enrollment.course_id;
    let done = Ok::<Enrollment, ServiceError>(f.enrollment);
    match f.phase {
        EnrollPhase::AwaitExisting => match e {
            EnrollEvent::Enrollments(Err(_)) => finished(f, g, a, Err(ServiceError::TransientStore)),
            EnrollEvent::Enrollments(Ok(rows)) => if has_pair(rows@, course, student) {
                &&& moved_only(f, g, EnrollPhase::AwaitGuardians)
                &&& a == EnrollAction::FindGuardians(student)
            } else {
                &&& moved_only(f, g, EnrollPhase::AwaitInsert)
                &&& a == EnrollAction::InsertEnrollment(f.enrollment)
            },
            _ => false,
        },
        EnrollPhase::AwaitInsert => match e {
            EnrollEvent::Inserted(Err(_)) => finished(f, g, a, Err(ServiceError::TransientStore)),
            EnrollEvent::Inserted(Ok(())) => {
                &&& moved(f, g, EnrollPhase::AwaitGuardians)
                &&& g.created
                &&& g.recipients@ == f.recipients@
                &&& a == EnrollAction::FindGuardians(student)
            },
            _ => false,
        },
        EnrollPhase::AwaitGuardians => match e {
            EnrollEvent::Guardians(res) => {
                &&& moved(f, g, EnrollPhase::AwaitTeacher)
                &&& g.created == f.created
                &&& g.recipients@ == match res {
                    Ok(users) => f.recipients@ + emails_of(users@),
                    Err(_) => f.recipients@,
                }
                &&& a == EnrollAction::FindTeacher(course)
            },
            _ => false,
        },
        EnrollPhase::AwaitTeacher => match e {
            EnrollEvent::Teacher(res) => {
                &&& moved(f, g, EnrollPhase::AwaitSystemUser)
                &&& g.created == f.created
                &&& g.recipients@ == match res {
                    Ok(Some(t)) => f.recipients@.push(t.email),
                    _ => f.recipients@,
                }
                &&& a == EnrollAction::FindSystemUser
            },
            _ => false,
        },
        EnrollPhase::AwaitSystemUser => match e {
            EnrollEvent::SystemUser(Ok(Some(s))) => {
                &&& moved_only(f, g, EnrollPhase::AwaitPersist)
                &&& a is PersistMessage
                &&& is_notice(a->PersistMessage_0, f, s.uid)
            },
            EnrollEvent::SystemUser(_) => finished(f, g, a, done),
            _ => false,
        },
        EnrollPhase::AwaitPersist => match e {
            EnrollEvent::Persisted(Ok(())) => {
                &&& moved_only(f, g, EnrollPhase::AwaitNotify)
                &&& a is Notify
                &&& is_notice_fanout(a->Notify_0, f)
            },
            EnrollEvent::Persisted(Err(_)) => finished(f, g, a, done),
            _ => false,
        },
        EnrollPhase::AwaitNotify => match e {
            EnrollEvent::Notified => finished(f, g, a, done),
            _ => false,
        },
        EnrollPhase::Done => false,
    }
}

} // verus!

verus! {

/// `f` and its first action `a` are how a flow for `student` and `course_id`
/// starts: a student's flow first looks for the pair's enrollments; anyone
/// else is refused at once, before anything is written.
pub open spec fn started(student: User, course_id: Uid, f: EnrollFlow, a: EnrollAction) -> bool {
    &&& f.wf()
    &&& f.enrollment.course_id == course_id
    &&& f.enrollment.student_id == student.uid
    &&& !f.created
    &&& f.recipients@.len() == 0
    &&& if student.role == UserRole::Student {
        &&& f.phase == EnrollPhase::AwaitExisting
        &&& a == (EnrollAction::FindEnrollments { course_id, student_id: student.uid })
    } else {
        &&& f.phase == EnrollPhase::Done
        &&& f.outcome == Some(Err::<Enrollment, ServiceError>(ServiceError::Policy))
        &&& a == EnrollAction::Finished(Err(ServiceError::Policy))
    }
}

/// The text of the enrollment notice for `e`.
pub fn enrollment_notice(e: &Enrollment) -> (r: String)
    ensures
        r@ == notice_text(*e),
{
    let mut s = String::from_str("Your kid is enrolled in course Enrollment { id: ");
    let id = uid_text(e.id);
    s.append(id.as_str());
    s.append(", course_id: ");
    let course = uid_text(e.course_id);
    s.append(course.as_str());
    s.append(", student_id: ");
    let student = uid_text(e.student_id);
    s.append(student.as_str());
    s.append(" }");
    s
}

/// The emails of `users`, in order.
pub fn emails(users: &Vec<User>) -> (r: Vec<String>)
    ensures
        r@ == emails_of(users@),
{
    let mut r: Vec<String> = Vec::new();
    let mut i: usize = 0;
    while i < users.len()
        invariant
            i <= users.len(),
            r@ == emails_of(users@.subrange(0, i as int)),
        decreases users.len() - i,
    {
        r.push(users[i].email.clone());
        i = i + 1;
        assert(r@ =~= emails_of(users@.subrange(0, i as int)));
    }
    assert(users@.subrange(0, users.len() as int) =~= users@);
    r
}

impl EnrollFlow {
    /// The flow's own consistency: the notice describes its enrollment, and
    /// it has an outcome exactly when it is done.
    pub open spec fn wf(&self) -> bool {
        &&& self.notice@ == notice_text(self.enrollment)
        &&& (self.phase == EnrollPhase::Done <==> self.outcome is Some)
    }

    /// Starts the enrollment of `student` in `course_id`, under a fresh
    /// enrollment identifier.
    pub fn start(student: &User, course_id: Uid) -> (r: (EnrollFlow, EnrollAction))
        ensures
            started(*student, course_id, r.0, r.1),
    {
        let enrollment = Enrollment { id: fresh_uid(), course_id, student_id: student.uid };
        let notice = enrollment_notice(&enrollment);
        if student.role != UserRole::Student {
            let flow = EnrollFlow {
                phase: EnrollPhase::Done,
                enrollment,
                created: false,
                recipients: Vec::new(),
                notice,
                outcome: Some(Err(ServiceError::Policy)),
            };
            return (flow, EnrollAction::Finished(Err(ServiceError::Policy)));
        }
        let flow = EnrollFlow {
            phase: EnrollPhase::AwaitExisting,
            enrollment,
            created: false,
            recipients: Vec::new(),
            notice,
            outcome: None,
        };
        (flow, EnrollAction::FindEnrollments { course_id, student_id: student.uid })
    }

    /// Whether `e` answers what the flow asked for last.
    pub fn accepts(&self, e: &EnrollEvent) -> (r: bool)
        ensures
            r == answers(self.phase, *e),
    {
        match self.phase {
            EnrollPhase::AwaitExisting => matches!(e, EnrollEvent::Enrollments(_)),
            EnrollPhase::AwaitInsert => matches!(e, EnrollEvent::Inserted(_)),
            EnrollPhase::AwaitGuardians => matches!(e, EnrollEvent::Guardians(_)),
            EnrollPhase::AwaitTeacher => matches!(e, EnrollEvent::Teacher(_)),
            EnrollPhase::AwaitSystemUser => matches!(e, EnrollEvent::SystemUser(_)),
            EnrollPhase::AwaitPersist => matches!(e, EnrollEvent::Persisted(_)),
            EnrollPhase::AwaitNotify => matches!(e, EnrollEvent::Notified),
            EnrollPhase::Done => false,
        }
    }

    fn finish(&mut self, res: Result<Enrollment, ServiceError>) -> (r: EnrollAction)
        requires
            old(self).wf(),
        ensures
            final(self).wf(),
            finished(*old(self), *final(self), r, res),
    {
        self.phase = EnrollPhase::Done;
        self.outcome = Some(res);
        EnrollAction::Finished(res)
    }

    /// Takes the answer `e` to the last action and returns the next one.
    pub fn step(&mut self, e: EnrollEvent) -> (r: EnrollAction)
        requires
            old(self).wf(),
            answers(old(self).phase, e),
        ensures
            final(self).wf(),
            next(*old(self), e, *final(self), r),
    {
        let student = self.enrollment.student_id;
        let course = self.enrollment.course_id;
        match e {
            EnrollEvent::Enrollments(Err(_)) => self.finish(Err(ServiceError::TransientStore)),
            EnrollEvent::Enrollments(Ok(rows)) => {
                if needs_insert(&rows, &self.enrollment) {
                    self.phase = EnrollPhase::AwaitInsert;
                    EnrollAction::InsertEnrollment(self.enrollment)
                } else {
                    self.phase = EnrollPhase::AwaitGuardians;
                    EnrollAction::FindGuardians(student)
                }
            },
            EnrollEvent::Inserted(Err(_)) => self.finish(Err(ServiceError::TransientStore)),
            EnrollEvent::Inserted(Ok(())) => {
                self.created = true;
                self.phase = EnrollPhase::AwaitGuardians;
                EnrollAction::FindGuardians(student)
            },
            EnrollEvent::Guardians(res) => {
                if let Ok(users) = res {
                    let mut found = emails(&users);
                    self.recipients.append(&mut found);
                }
                self.phase = EnrollPhase::AwaitTeacher;
                EnrollAction::FindTeacher(course)
            },
            EnrollEvent::Teacher(res) => {
                if let Ok(Some(t)) = res {
                    self.recipients.push(t.email);
                }
                self.phase = EnrollPhase::AwaitSystemUser;
                EnrollAction::FindSystemUser
            },
            EnrollEvent::SystemUser(Ok(Some(s))) => {
                let body = MessageBody {
                    receiver_ids: copy_texts(&self.recipients),
                    subject: Some(String::from_str("Enrollment")),
                    content: self.notice.clone(),
                };
                let m = new_message(&s, body);
                self.phase = EnrollPhase::AwaitPersist;
                EnrollAction::PersistMessage(m)
            },
            EnrollEvent::SystemUser(_) => self.finish(Ok(self.enrollment)),
            EnrollEvent::Persisted(Ok(())) => {
                let q = NotifyRequest {
                    emails: copy_texts(&self.recipients),
                    title: Some(String::from_str("Enrollment")),
                    body: self.notice.clone(),
                };
                self.phase = EnrollPhase::AwaitNotify;
                EnrollAction::Notify(q)
            },
            EnrollEvent::Persisted(Err(_)) => self.finish(Ok(self.enrollment)),
            EnrollEvent::Notified => self.finish(Ok(self.enrollment)),
        }
    }
}

} // verus!

verus! {

/// A run of flows: each `fs[i + 1]` is `fs[i]` after the answer `es[i]`, with
/// `acts[i]` the action it asked for.
pub open spec fn is_run(fs: Seq<EnrollFlow>, es: Seq<EnrollEvent>, acts: Seq<EnrollAction>) -> bool {
    &&& fs.len() == es.len() + 1
    &&& acts.len() == es.len()
    &&& forall|i: int| 0 <= i < es.len() ==> #[trigger] next(fs[i], es[i], fs[i + 1], acts[i])
}

/// The action writes an enrollment row.
pub open spec fn writes_enrollment(a: EnrollAction) -> bool {
    a is InsertEnrollment
}

/// Every step moves the flow forward, and a finished flow takes no step.
pub proof fn lemma_step_moves_forward(f: EnrollFlow, e: EnrollEvent, g: EnrollFlow, a: EnrollAction)
    requires
        next(f, e, g, a),
    ensures
        f.phase != EnrollPhase::Done,
        rank(f.phase) < rank(g.phase),
{
}

/// Only the answer to the lookup of the pair's enrollments leads to a write,
/// and then of the flow's own enrollment, where no row for its pair was found.
pub proof fn lemma_write_only_when_absent(f: EnrollFlow, e: EnrollEvent, g: EnrollFlow, a: EnrollAction)
    requires
        next(f, e, g, a),
        writes_enrollment(a),
    ensures
        f.phase == EnrollPhase::AwaitExisting,
        e is Enrollments,
        e->Enrollments_0 is Ok,
        !has_pair(e->Enrollments_0->Ok_0@, f.enrollment.course_id, f.enrollment.student_id),
        a == EnrollAction::InsertEnrollment(f.enrollment),
{
}

proof fn lemma_run_moves_forward(fs: Seq<EnrollFlow>, es: Seq<EnrollEvent>, acts: Seq<EnrollAction>, i: int, j: int)
    requires
        is_run(fs, es, acts),
        0 <= i <= j < fs.len(),
    ensures
        rank(fs[i].phase) + (j - i) <= rank(fs[j].phase),
    decreases j - i,
{
    if i < j {
        let k = j - 1;
        lemma_run_moves_forward(fs, es, acts, i, k);
        assert(next(fs[k], es[k], fs[k + 1], acts[k]));
        lemma_step_moves_forward(fs[k], es[k], fs[k + 1], acts[k]);
    }
}

/// A flow writes its enrollment at most once, whatever it is answered.
pub proof fn lemma_enrollment_written_at_most_once(
    fs: Seq<EnrollFlow>,
    es: Seq<EnrollEvent>,
    acts: Seq<EnrollAction>,
    i: int,
    j: int,
)
    requires
        is_run(fs, es, acts),
        0 <= i < j < acts.len(),
        writes_enrollment(acts[i]),
    ensures
        !writes_enrollment(acts[j]),
{
    assert(next(fs[i], es[i], fs[i + 1], acts[i]));
    lemma_write_only_when_absent(fs[i], es[i], fs[i + 1], acts[i]);
    lemma_run_moves_forward(fs, es, acts, i, j);
    assert(next(fs[j], es[j], fs[j + 1], acts[j]));
    if writes_enrollment(acts[j]) {
        lemma_write_only_when_absent(fs[j], es[j], fs[j + 1], acts[j]);
    }
}

/// A student's first enrollment in a course: where the lookup finds no row
/// for the pair, the flow writes one enrollment, for exactly that course and
/// that student.
pub proof fn lemma_first_enrollment_written(
    student: User,
    course_id: Uid,
    f: EnrollFlow,
    a: EnrollAction,
    rows: Vec<Enrollment>,
    g: EnrollFlow,
    b: EnrollAction,
)
    requires
        student.role == UserRole::Student,
        started(student, course_id, f, a),
        !has_pair(rows@, course_id, student.uid),
        next(f, EnrollEvent::Enrollments(Ok(rows)), g, b),
    ensures
        writes_enrollment(b),
        b->InsertEnrollment_0.course_id == course_id,
        b->InsertEnrollment_0.student_id == student.uid,
        g.phase == EnrollPhase::AwaitInsert,
{
}

/// Enrolling again in a course: where the lookup finds a row for the pair,
/// the flow writes nothing, raises no error and goes on to the notice.
pub proof fn lemma_re_enrollment_goes_on(
    student: User,
    course_id: Uid,
    f: EnrollFlow,
    a: EnrollAction,
    rows: Vec<Enrollment>,
    g: EnrollFlow,
    b: EnrollAction,
)
    requires
        student.role == UserRole::Student,
        started(student, course_id, f, a),
        has_pair(rows@, course_id, student.uid),
        next(f, EnrollEvent::Enrollments(Ok(rows)), g, b),
    ensures
        b == EnrollAction::FindGuardians(student.uid),
        g.phase == EnrollPhase::AwaitGuardians,
        g.outcome is None,
{
}

/// Once the enrollment stands, the flow can only end successfully with it:
/// no failure of the guardians, teacher or system-user lookups, of the
/// notice's write or of its fan-out undoes it.
pub proof fn lemma_enrolled_stays_enrolled(f: EnrollFlow, e: EnrollEvent, g: EnrollFlow, a: EnrollAction)
    requires
        next(f, e, g, a),
        rank(f.phase) >= rank(EnrollPhase::AwaitGuardians),
        a is Finished,
    ensures
        a == EnrollAction::Finished(Ok(f.enrollment)),
        g.outcome == Some(Ok::<Enrollment, ServiceError>(f.enrollment)),
{
}

/// A user who is not a student is refused with a policy error, and the flow
/// is over: it takes no answer, so it writes no enrollment.
pub proof fn lemma_non_student_refused(student: User, course_id: Uid, f: EnrollFlow, a: EnrollAction)
    requires
        student.role != UserRole::Student,
        started(student, course_id, f, a),
    ensures
        a == EnrollAction::Finished(Err(ServiceError::Policy)),
        forall|e: EnrollEvent, g: EnrollFlow, b: EnrollAction| !next(f, e, g, b),
{
}

} // verus!

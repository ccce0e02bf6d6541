//! The records of the backend and the bodies of its requests.

use vstd::prelude::*;
use crate::ids::Uid;

verus! {

/// What a user is to the school.
#[derive(Debug, Clone, Copy, PartialEq, Eq, Structural)]
pub enum UserRole {
    Student,
    Teacher,
    Parent,
    Admin,
    System,
}

/// A registered user. `devices` holds the push tokens of the user's devices,
/// in the order they were registered.
#[derive(Debug, Clone)]
pub struct User {
    pub uid: Uid,
    pub email: String,
    pub role: UserRole,
    pub name: String,
    pub devices: Vec<String>,
}

/// A user record together with the hash of the user's password.
#[derive(Debug, Clone)]
pub struct UserWithPassword {
    pub uid: Uid,
    pub email: String,
    pub password: String,
    pub role: UserRole,
    pub name: String,
    pub devices: Vec<String>,
}

/// What a registration asks for: a parent may name the students it guards.
#[derive(Debug, Clone)]
pub struct UserWithPasswordStudents {
    pub email: String,
    pub password: String,
    pub role: UserRole,
    pub name: String,
    pub students: Option<Vec<Uid>>,
}

/// A guardian link between a student and a parent.
#[derive(Debug, Clone, Copy, PartialEq, Eq, Structural)]
pub struct StudentsParents {
    pub student_id: Uid,
    pub parent_id: Uid,
}

/// A course and the teacher who owns it.
#[derive(Debug, Clone)]
pub struct Course {
    pub id: Uid,
    pub title: String,
    pub content: String,
    pub teacher_id: Uid,
}

/// A course as a user sees it in a listing.
#[derive(Debug, Clone)]
pub struct CourseEnrollment {
    pub course: Course,
    pub enrolled: bool,
}

/// A course with its teacher and its students.
#[derive(Debug, Clone)]
pub struct CourseResponse {
    pub course: Course,
    pub teacher: User,
    pub students: Vec<User>,
    pub enrolled: bool,
}

/// A student's enrollment in a course.
#[derive(Debug, Clone, Copy, PartialEq, Eq, Structural)]
pub struct Enrollment {
    pub id: Uid,
    pub course_id: Uid,
    pub student_id: Uid,
}

/// Where a message stands. Any state may follow any other.
#[derive(Debug, Clone, Copy, PartialEq, Eq, Structural)]
pub enum MessageState {
    Pending,
    Failed,
    Sent,
    Received,
    Read,
}

/// A persisted message. Recipients are addressed by email; `created_at` is
/// in milliseconds since the Unix epoch.
#[derive(Debug, Clone)]
pub struct Message {
    pub id: Uid,
    pub sender_id: Uid,
    pub receiver_ids: Vec<String>,
    pub subject: Option<String>,
    pub content: String,
    pub state: MessageState,
    pub created_at: i64,
}

/// Which of a user's messages a listing shows: those received, those sent,
/// or both.
#[derive(Debug, Clone, Copy, PartialEq, Eq, Structural)]
pub enum MessageType {
    Received,
    Sent,
    All,
}

/// A request to send a message.
#[derive(Debug, Clone)]
pub struct MessageBody {
    pub receiver_ids: Vec<String>,
    pub subject: Option<String>,
    pub content: String,
}

/// A request to set a message's state.
#[derive(Debug, Clone, Copy)]
pub struct UpdateMessageStateBody {
    pub state: MessageState,
}

/// The device a login comes from, if the client names one.
#[derive(Debug, Clone)]
pub struct DeviceIdInfo {
    pub device_id: Option<String>,
}

/// A teacher with each of its courses and the students enrolled there.
#[derive(Debug, Clone)]
pub struct Teacher {
    pub user: User,
    pub courses: Vec<(Course, Vec<User>)>,
}

/// A parent with its children.
#[derive(Debug, Clone)]
pub struct Parent {
    pub user: User,
    pub children: Vec<User>,
}

/// The failures that the backend reports.
#[derive(Debug, Clone, Copy, PartialEq, Eq, Structural)]
pub enum ServiceError {
    /// The user's role does not allow the action.
    Policy,
    /// A referenced user, course or message is absent.
    NotFound,
    /// A read or a write of the document store failed.
    TransientStore,
}

/// A copy of an optional text.
pub fn copy_opt_text(t: &Option<String>) -> (r: Option<String>)
    ensures
        r == *t,
{
    match t {
        Some(s) => Some(s.clone()),
        None => None,
    }
}

/// A copy of a list of texts.
pub fn copy_texts(v: &Vec<String>) -> (r: Vec<String>)
    ensures
        r@ == v@,
{
    let mut r: Vec<String> = Vec::new();
    let mut i: usize = 0;
    while i < v.len()
        invariant
            i <= v.len(),
            r@ == v@.subrange(0, i as int),
        decreases v.len() - i,
    {
        r.push(v[i].clone());
        i = i + 1;
        assert(r@ =~= v@.subrange(0, i as int));
    }
    assert(r@ =~= v@);
    r
}

} // verus!

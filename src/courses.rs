//! How courses are shown to a user: whether the user is enrolled.

use vstd::prelude::*;
use crate::ids::Uid;
use crate::ledger::{find_pair, has_pair};
use crate::model::{Course, CourseEnrollment, CourseResponse, Enrollment, User, UserRole};

verus! {

/// Some user of `users` has the identifier `uid`.
pub open spec fn has_user(users: Seq<User>, uid: Uid) -> bool {
    exists|i: int| 0 <= i < users.len() && #[trigger] users[i].uid == uid
}

/// `course` in a listing for `user`, given the enrollments that a lookup of
/// the user's enrollment there returned: marked enrolled only for a student
/// with such an enrollment.
pub fn course_entry(course: Course, user: &User, enrollments: &Vec<Enrollment>) -> (r: CourseEnrollment)
    ensures
        r.course == course,
        r.enrolled == (user.role == UserRole::Student && has_pair(enrollments@, course.id, user.uid)),
{
    let enrolled = user.role == UserRole::Student && find_pair(enrollments, course.id, user.uid);
    CourseEnrollment { course, enrolled }
}

/// Whether some user of `users` has the identifier `uid`.
pub fn find_user(users: &Vec<User>, uid: Uid) -> (r: bool)
    ensures
        r == has_user(users@, uid),
{
    let mut i: usize = 0;
    while i < users.len()
        invariant
            i <= users.len(),
            forall|k: int| 0 <= k < i ==> #[trigger] users@[k].uid != uid,
        decreases users.len() - i,
    {
        if users[i].uid == uid {
            return true;
        }
        i = i + 1;
    }
    false
}

/// The page of `course` for `user`, with the course's `teacher` and enrolled
/// `students`; none where the teacher is missing. A student sees whether it
/// is among the students.
pub fn get_course(course: Course, teacher: Option<User>, students: Vec<User>, user: &User) -> (r: Option<CourseResponse>)
    ensures
        teacher is None ==> r is None,
        teacher is Some ==> r is Some
            && r->Some_0.course == course
            && r->Some_0.teacher == teacher->Some_0
            && r->Some_0.students@ == students@
            && r->Some_0.enrolled == (user.role == UserRole::Student && has_user(students@, user.uid)),
{
    match teacher {
        Some(t) => {
            let enrolled = user.role == UserRole::Student && find_user(&students, user.uid);
            Some(CourseResponse { course, teacher: t, students, enrolled })
        },
        None => None,
    }
}

} // verus!

//! The enrollment ledger's decision: an enrollment row is written only where
//! none exists yet for its (course, student) pair.

use vstd::prelude::*;
use crate::ids::Uid;
use crate::model::Enrollment;

verus! {

/// `e` enrolls `student_id` in `course_id`.
pub open spec fn is_pair(e: Enrollment, course_id: Uid, student_id: Uid) -> bool {
    e.course_id == course_id && e.student_id == student_id
}

/// Some row of `rows` enrolls `student_id` in `course_id`.
pub open spec fn has_pair(rows: Seq<Enrollment>, course_id: Uid, student_id: Uid) -> bool {
    exists|i: int| 0 <= i < rows.len() && is_pair(#[trigger] rows[i], course_id, student_id)
}

/// Whether some row of `rows` enrolls `student_id` in `course_id`.
pub fn find_pair(rows: &Vec<Enrollment>, course_id: Uid, student_id: Uid) -> (r: bool)
    ensures
        r == has_pair(rows@, course_id, student_id),
{
    let mut i: usize = 0;
    while i < rows.len()
        invariant
            i <= rows.len(),
            forall|k: int| 0 <= k < i ==> !is_pair(#[trigger] rows@[k], course_id, student_id),
        decreases rows.len() - i,
    {
        if rows[i].course_id == course_id && rows[i].student_id == student_id {
            return true;
        }
        i = i + 1;
    }
    false
}

/// Whether `enrollment` is to be written, given the rows that a lookup of
/// its pair returned: only where none of them is for that pair. Finding
/// one is no error; the enrollment then stands as it is.
pub fn needs_insert(existing: &Vec<Enrollment>, enrollment: &Enrollment) -> (r: bool)
    ensures
        r == !has_pair(existing@, enrollment.course_id, enrollment.student_id),
{
    !find_pair(existing, enrollment.course_id, enrollment.student_id)
}

} // verus!

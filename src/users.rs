//! User records: registration, device registration, guardian links and the
//! role checks of the teacher and parent views.

use vstd::prelude::*;
use crate::ids::{Uid, fresh_uid, uid_text, uid_text_of};
use crate::model::{
    Course, Parent, ServiceError, StudentsParents, Teacher, User, UserRole, UserWithPassword,
    UserWithPasswordStudents,
};

verus! {

/// The user record of `u`, without its password.
pub open spec fn user_of(u: UserWithPassword) -> User {
    User { uid: u.uid, email: u.email, role: u.role, name: u.name, devices: u.devices }
}

impl From<UserWithPassword> for User {
    fn from(u: UserWithPassword) -> (r: User)
        ensures
            r == user_of(u),
    {
        User { uid: u.uid, role: u.role, name: u.name, devices: u.devices, email: u.email }
    }
}

impl vstd::std_specs::convert::FromSpecImpl<UserWithPassword> for User {
    open spec fn obeys_from_spec() -> bool {
        true
    }

    open spec fn from_spec(u: UserWithPassword) -> User {
        user_of(u)
    }
}

/// `v` holds `token`.
pub open spec fn has_token(v: Seq<String>, token: Seq<char>) -> bool {
    exists|i: int| 0 <= i < v.len() && #[trigger] v[i]@ == token
}

/// Registers the device `token` in `devices`: appended unless the very same
/// token is there already.
pub fn add_device(devices: &mut Vec<String>, token: String)
    ensures
        has_token(old(devices)@, token@) ==> final(devices)@ == old(devices)@,
        !has_token(old(devices)@, token@) ==> final(devices)@ == old(devices)@.push(token),
{
    let mut i: usize = 0;
    while i < devices.len()
        invariant
            i <= devices.len(),
            forall|k: int| 0 <= k < i ==> #[trigger] devices@[k]@ != token@,
        decreases devices.len() - i,
    {
        if devices[i] == token {
            return;
        }
        i = i + 1;
    }
    devices.push(token);
}

/// Registers the device `device_id` for the user that a lookup `found`: the
/// user with the device added (see `add_device`), to be written back, or
/// `NotFound` where there was none.
pub fn try_add_device(found: Option<User>, device_id: String) -> (r: Result<User, ServiceError>)
    ensures
        found is None ==> r == Err::<User, ServiceError>(ServiceError::NotFound),
        found is Some ==> r is Ok && ({
            let (old_user, new_user) = (found->Some_0, r->Ok_0);
            &&& new_user.uid == old_user.uid
            &&& new_user.email == old_user.email
            &&& new_user.role == old_user.role
            &&& new_user.name == old_user.name
            &&& has_token(old_user.devices@, device_id@) ==> new_user.devices@ == old_user.devices@
            &&& !has_token(old_user.devices@, device_id@) ==> new_user.devices@ == old_user.devices@.push(device_id)
        }),
{
    match found {
        Some(mut user) => {
            add_device(&mut user.devices, device_id);
            Ok(user)
        },
        None => Err(ServiceError::NotFound),
    }
}

/// A copy of a list of identifiers.
pub fn copy_uids(v: &Vec<Uid>) -> (r: Vec<Uid>)
    ensures
        r@ == v@,
{
    let mut r: Vec<Uid> = Vec::new();
    let mut i: usize = 0;
    while i < v.len()
        invariant
            i <= v.len(),
            r@ == v@.subrange(0, i as int),
        decreases v.len() - i,
    {
        r.push(v[i]);
        i = i + 1;
        assert(r@ =~= v@.subrange(0, i as int));
    }
    assert(r@ =~= v@);
    r
}

/// The students whose guardian a new user becomes: those it names, where it
/// registers as a parent; none otherwise.
pub fn guarded_students(user: &UserWithPasswordStudents) -> (r: Option<Vec<Uid>>)
    ensures
        user.role == UserRole::Parent && user.students is Some ==> r is Some && r->Some_0@ == user.students->Some_0@,
        user.role != UserRole::Parent || user.students is None ==> r is None,
{
    match user.role {
        UserRole::Parent => match &user.students {
            Some(s) => Some(copy_uids(s)),
            None => None,
        },
        _ => None,
    }
}

/// The record of a new user from a registration, with `password_hash` as
/// its stored password, a fresh identifier and no device yet; and the
/// students it guards (see `guarded_students`).
pub fn make_user(user: &UserWithPasswordStudents, password_hash: String) -> (r: (UserWithPassword, Option<Vec<Uid>>))
    ensures
        r.0.email == user.email,
        r.0.role == user.role,
        r.0.name == user.name,
        r.0.password == password_hash,
        r.0.devices@.len() == 0,
        user.role == UserRole::Parent && user.students is Some ==> r.1 is Some && r.1->Some_0@ == user.students->Some_0@,
        user.role != UserRole::Parent || user.students is None ==> r.1 is None,
{
    let kids = guarded_students(user);
    let record = UserWithPassword {
        uid: fresh_uid(),
        email: user.email.clone(),
        role: user.role,
        name: user.name.clone(),
        password: password_hash,
        devices: Vec::new(),
    };
    (record, kids)
}

/// A registration goes ahead only where the password was typed the same
/// twice.
pub fn passwords_match(password: &String, confirm_password: &String) -> (r: bool)
    ensures
        r == (password@ == confirm_password@),
{
    *password == *confirm_password
}

/// The guardian links of `parent_id` to each of `students`, in order.
pub fn guardian_links(parent_id: Uid, students: &Vec<Uid>) -> (r: Vec<StudentsParents>)
    ensures
        r@.len() == students@.len(),
        forall|i: int| 0 <= i < r@.len() ==> #[trigger] r@[i] == (StudentsParents { student_id: students@[i], parent_id }),
{
    let mut r: Vec<StudentsParents> = Vec::new();
    let mut i: usize = 0;
    while i < students.len()
        invariant
            i <= students.len(),
            r@.len() == i,
            forall|k: int| 0 <= k < i ==> #[trigger] r@[k] == (StudentsParents { student_id: students@[k], parent_id }),
        decreases students.len() - i,
    {
        r.push(StudentsParents { student_id: students[i], parent_id });
        i = i + 1;
    }
    r
}

/// The document key of a guardian link: the student's and the parent's
/// identifiers joined by an underscore.
pub fn link_key(link: &StudentsParents) -> (r: String)
    ensures
        r@ == uid_text_of(link.student_id.value) + "_"@ + uid_text_of(link.parent_id.value),
{
    let mut s = uid_text(link.student_id);
    s.append("_");
    let parent = uid_text(link.parent_id);
    s.append(parent.as_str());
    s
}

impl Teacher {
    /// The teacher view of `user` with its `courses`; refused where the user
    /// is no teacher.
    pub fn from_user(user: User, courses: Vec<(Course, Vec<User>)>) -> (r: Result<Teacher, ServiceError>)
        ensures
            user.role == UserRole::Teacher ==> r == Ok::<Teacher, ServiceError>(Teacher { user, courses }),
            user.role != UserRole::Teacher ==> r == Err::<Teacher, ServiceError>(ServiceError::Policy),
    {
        if user.role != UserRole::Teacher {
            return Err(ServiceError::Policy);
        }
        Ok(Teacher { user, courses })
    }

    /// The teacher's user record.
    pub fn as_user(&self) -> (r: &User)
        ensures
            *r == self.user,
    {
        &self.user
    }
}

impl Parent {
    /// The parent view of `user` with its `children`; refused where the user
    /// is no parent.
    pub fn from_user(user: User, children: Vec<User>) -> (r: Result<Parent, ServiceError>)
        ensures
            user.role == UserRole::Parent ==> r == Ok::<Parent, ServiceError>(Parent { user, children }),
            user.role != UserRole::Parent ==> r == Err::<Parent, ServiceError>(ServiceError::Policy),
    {
        if user.role != UserRole::Parent {
            return Err(ServiceError::Policy);
        }
        Ok(Parent { user, children })
    }

    /// The parent's user record.
    pub fn as_user(&self) -> (r: &User)
        ensures
            *r == self.user,
    {
        &self.user
    }
}

} // verus!

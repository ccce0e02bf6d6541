use edclass::courses::{course_entry, get_course};
use edclass::ids::Uid;
use edclass::model::{
    Course, Enrollment, Parent, ServiceError, StudentsParents, Teacher, User, UserRole,
    UserWithPassword, UserWithPasswordStudents,
};
use edclass::users::{add_device, guardian_links, link_key, make_user, passwords_match, try_add_device};

fn user(n: u128, role: UserRole) -> User {
    User { uid: Uid { value: n }, email: format!("u{}@x", n), role, name: "n".to_string(), devices: Vec::new() }
}

fn course(n: u128) -> Course {
    Course { id: Uid { value: n }, title: "Maths".to_string(), content: "numbers".to_string(), teacher_id: Uid { value: 30 } }
}

#[test]
fn device_added_once() {
    let mut d = vec!["a".to_string()];
    add_device(&mut d, "b".to_string());
    assert_eq!(d, vec!["a", "b"]);
    add_device(&mut d, "a".to_string());
    assert_eq!(d, vec!["a", "b"]);
    add_device(&mut d, "A".to_string());
    assert_eq!(d, vec!["a", "b", "A"]);
}

#[test]
fn parent_registration_keeps_students() {
    let kids = vec![Uid { value: 1 }, Uid { value: 2 }];
    let reg = UserWithPasswordStudents {
        email: "mom@x".to_string(),
        password: "secret".to_string(),
        role: UserRole::Parent,
        name: "Mom".to_string(),
        students: Some(kids.clone()),
    };
    let (u, k) = make_user(&reg, "hashed".to_string());
    assert_eq!(u.email, "mom@x");
    assert_eq!(u.password, "hashed");
    assert_eq!(u.role, UserRole::Parent);
    assert!(u.devices.is_empty());
    assert_eq!(k, Some(kids));
    let reg = UserWithPasswordStudents { role: UserRole::Teacher, ..reg };
    assert_eq!(make_user(&reg, "h".to_string()).1, None);
}

#[test]
fn registration_passwords() {
    assert!(passwords_match(&"abc".to_string(), &"abc".to_string()));
    assert!(!passwords_match(&"abc".to_string(), &"abd".to_string()));
}

#[test]
fn links_and_their_keys() {
    let links = guardian_links(Uid { value: 9 }, &vec![Uid { value: 1 }, Uid { value: 2 }]);
    assert_eq!(links, vec![
        StudentsParents { student_id: Uid { value: 1 }, parent_id: Uid { value: 9 } },
        StudentsParents { student_id: Uid { value: 2 }, parent_id: Uid { value: 9 } },
    ]);
    assert_eq!(
        link_key(&links[0]),
        "00000000-0000-0000-0000-000000000001_00000000-0000-0000-0000-000000000009"
    );
}

#[test]
fn user_record_drops_password() {
    let u = UserWithPassword {
        uid: Uid { value: 4 },
        email: "e@x".to_string(),
        password: "h".to_string(),
        role: UserRole::Admin,
        name: "A".to_string(),
        devices: vec!["d".to_string()],
    };
    let r = User::from(u);
    assert_eq!(r.uid, Uid { value: 4 });
    assert_eq!(r.email, "e@x");
    assert_eq!(r.role, UserRole::Admin);
    assert_eq!(r.devices, vec!["d"]);
}

#[test]
fn teacher_and_parent_views_check_the_role() {
    assert!(Teacher::from_user(user(1, UserRole::Teacher), Vec::new()).is_ok());
    assert_eq!(Teacher::from_user(user(1, UserRole::Parent), Vec::new()).unwrap_err(), ServiceError::Policy);
    let p = Parent::from_user(user(2, UserRole::Parent), vec![user(3, UserRole::Student)]).unwrap();
    assert_eq!(p.as_user().uid, Uid { value: 2 });
    assert_eq!(Parent::from_user(user(2, UserRole::Student), Vec::new()).unwrap_err(), ServiceError::Policy);
}

#[test]
fn course_listing_marks_enrolled_students() {
    let me = user(7, UserRole::Student);
    let mine = Enrollment { id: Uid { value: 1 }, course_id: Uid { value: 50 }, student_id: Uid { value: 7 } };
    assert!(course_entry(course(50), &me, &vec![mine]).enrolled);
    assert!(!course_entry(course(51), &me, &vec![mine]).enrolled);
    let teacher = user(30, UserRole::Teacher);
    let fake = Enrollment { student_id: Uid { value: 30 }, ..mine };
    assert!(!course_entry(course(50), &teacher, &vec![fake]).enrolled);
}

#[test]
fn course_page_needs_a_teacher() {
    let me = user(7, UserRole::Student);
    assert!(get_course(course(50), None, Vec::new(), &me).is_none());
    let r = get_course(course(50), Some(user(30, UserRole::Teacher)), vec![user(7, UserRole::Student)], &me).unwrap();
    assert!(r.enrolled);
    assert_eq!(r.teacher.uid, Uid { value: 30 });
    let other = user(8, UserRole::Student);
    assert!(!get_course(course(50), Some(user(30, UserRole::Teacher)), vec![user(7, UserRole::Student)], &other).unwrap().enrolled);
}

#[test]
fn device_registration_needs_the_user() {
    assert_eq!(try_add_device(None, "d".to_string()).unwrap_err(), ServiceError::NotFound);
    let mut u = user(1, UserRole::Student);
    u.devices = vec!["d".to_string()];
    let r = try_add_device(Some(u), "e".to_string()).unwrap();
    assert_eq!(r.devices, vec!["d", "e"]);
    assert_eq!(r.uid, Uid { value: 1 });
    let r = try_add_device(Some(r), "d".to_string()).unwrap();
    assert_eq!(r.devices, vec!["d", "e"]);
}

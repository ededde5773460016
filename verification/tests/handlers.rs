//! End-to-end checks of every handler on concrete inputs: each route's
//! status code, the fixed strings and identifiers, and the echoed fields.

use lms::analytics::get_course_analytics;
use lms::analytics::get_progress;
use lms::analytics::track_activity;
use lms::analytics::TrackActivityRequest;
use lms::auth::login;
use lms::auth::logout;
use lms::auth::register;
use lms::auth::LoginRequest;
use lms::auth::RegisterRequest;
use lms::cms::create_course;
use lms::cms::delete_course;
use lms::cms::get_course;
use lms::cms::get_courses;
use lms::cms::update_course;
use lms::cms::CreateCourseRequest;
use lms::health_check;
use lms::pyq::create_pyq;
use lms::pyq::get_pyq_by_year;
use lms::pyq::get_pyqs;
use lms::pyq::CreatePyqRequest;
use lms::syllabus::create_syllabus;
use lms::syllabus::get_syllabus;
use lms::syllabus::update_syllabus;
use lms::syllabus::CreateSyllabusRequest;
use lms::AppState;
use lms::User;

#[test]
fn health_reports_running() {
    let r = health_check();
    assert_eq!(r.status, 200);
    assert_eq!(r.body.status, "LMS Microservice - Rust is running");
    assert!(r.body.status.contains("running"));
}

#[test]
fn register_returns_created_with_message() {
    let r = register(RegisterRequest {
        email: "student@example.edu".to_owned(),
        password: "hunter2".to_owned(),
        name: "Ada".to_owned(),
        role: "student".to_owned(),
    });
    assert_eq!(r.status, 201);
    assert_eq!(r.body.message, "User registered successfully");
}

#[test]
fn login_echoes_email_with_token() {
    let r = login(LoginRequest { email: "a@b.com".to_owned(), password: "x".to_owned() });
    assert_eq!(r.status, 200);
    assert_eq!(r.body.token, "jwt_token_here");
    assert_eq!(r.body.user.email, "a@b.com");
    assert_eq!(r.body.user.role, "student");
}

#[test]
fn logout_acknowledges() {
    let r = logout();
    assert_eq!(r.status, 200);
    assert_eq!(r.body.message, "Logged out successfully");
}

#[test]
fn create_course_echoes_fields_with_fixed_id() {
    let r = create_course(CreateCourseRequest {
        title: "Compilers".to_owned(),
        description: "From source to machine".to_owned(),
        instructor: "Prof. Hopper".to_owned(),
        duration: 12,
    });
    assert_eq!(r.status, 201);
    assert_eq!(r.body.id, 1);
    assert_eq!(r.body.title, "Compilers");
    assert_eq!(r.body.description, "From source to machine");
    assert_eq!(r.body.instructor, "Prof. Hopper");
    assert_eq!(r.body.duration, 12);
}

#[test]
fn course_list_stays_empty_after_posts() {
    let _ = create_course(CreateCourseRequest {
        title: "Databases".to_owned(),
        description: "Relational things".to_owned(),
        instructor: "Dr. Codd".to_owned(),
        duration: 8,
    });
    let _ = create_course(CreateCourseRequest {
        title: "Networks".to_owned(),
        description: "Packets and routes".to_owned(),
        instructor: "Dr. Cerf".to_owned(),
        duration: 10,
    });
    let r = get_courses();
    assert_eq!(r.status, 200);
    assert!(r.body.is_empty());
}

#[test]
fn get_course_echoes_id_with_sample_title() {
    let r = get_course(42);
    assert_eq!(r.status, 200);
    assert_eq!(r.body.id, 42);
    assert_eq!(r.body.title, "Sample Course");
}

#[test]
fn update_course_echoes_id_and_new_title() {
    let r = update_course(
        7,
        CreateCourseRequest {
            title: "Operating Systems".to_owned(),
            description: "Kernels".to_owned(),
            instructor: "Prof. Tanen".to_owned(),
            duration: 14,
        },
    );
    assert_eq!(r.status, 200);
    assert_eq!(r.body.id, 7);
    assert_eq!(r.body.title, "Operating Systems");
}

#[test]
fn delete_course_acknowledges() {
    let r = delete_course(3);
    assert_eq!(r.status, 200);
    assert_eq!(r.body.message, "Course deleted successfully");
}

#[test]
fn create_syllabus_echoes_course_and_topics() {
    let r = create_syllabus(CreateSyllabusRequest {
        course_id: 9,
        topics: vec!["intro".to_owned(), "depth".to_owned()],
        duration: 6,
        objectives: vec!["learn".to_owned()],
    });
    assert_eq!(r.status, 201);
    assert_eq!(r.body.id, 1);
    assert_eq!(r.body.course_id, 9);
    assert_eq!(r.body.topics, vec!["intro".to_owned(), "depth".to_owned()]);
}

#[test]
fn syllabus_list_is_empty() {
    let r = get_syllabus(9);
    assert_eq!(r.status, 200);
    assert!(r.body.is_empty());
}

#[test]
fn update_syllabus_echoes_ids() {
    let r = update_syllabus(
        4,
        CreateSyllabusRequest {
            course_id: 9,
            topics: vec![],
            duration: 6,
            objectives: vec![],
        },
    );
    assert_eq!(r.status, 200);
    assert_eq!(r.body.id, 4);
    assert_eq!(r.body.course_id, 9);
}

#[test]
fn track_activity_acknowledges() {
    let r = track_activity(TrackActivityRequest {
        user_id: "u-77".to_owned(),
        course_id: 5,
        action: "viewed".to_owned(),
        timestamp: "2024-01-01T00:00:00Z".to_owned(),
    });
    assert_eq!(r.status, 200);
    assert_eq!(r.body.message, "Activity tracked");
}

#[test]
fn progress_is_zero() {
    let r = get_progress("u-77".to_owned(), 5);
    assert_eq!(r.status, 200);
    assert_eq!(r.body.user_id, "u-77");
    assert_eq!(r.body.course_id, 5);
    assert_eq!(r.body.progress, 0);
}

#[test]
fn course_analytics_totals_are_zero() {
    let r = get_course_analytics(5);
    assert_eq!(r.status, 200);
    assert_eq!(r.body.course_id, 5);
    assert_eq!(r.body.total_users, 0);
    assert_eq!(r.body.total_activities, 0);
}

#[test]
fn create_pyq_echoes_course_and_year() {
    let r = create_pyq(CreatePyqRequest {
        course_id: 5,
        year: 2023,
        questions: vec![],
        duration: 60,
        total_marks: 100,
    });
    assert_eq!(r.status, 201);
    assert_eq!(r.body.id, 1);
    assert_eq!(r.body.course_id, 5);
    assert_eq!(r.body.year, 2023);
}

#[test]
fn pyq_list_is_empty() {
    let r = get_pyqs(5);
    assert_eq!(r.status, 200);
    assert!(r.body.is_empty());
}

#[test]
fn pyq_by_year_echoes_ids() {
    let r = get_pyq_by_year(5, 2019);
    assert_eq!(r.status, 200);
    assert_eq!(r.body.course_id, 5);
    assert_eq!(r.body.year, 2019);
}

#[test]
fn fresh_state_has_no_users() {
    let state = AppState::new();
    assert!(state.users.is_empty());
}

#[test]
fn user_clone_keeps_fields() {
    let u = User {
        id: "u-1".to_owned(),
        email: "a@b.com".to_owned(),
        name: "Ada".to_owned(),
        role: "student".to_owned(),
    };
    let v = u.clone();
    assert_eq!(v.id, "u-1");
    assert_eq!(v.email, "a@b.com");
    assert_eq!(v.name, "Ada");
    assert_eq!(v.role, "student");
}

//! A learning-management-system (LMS) microservice core: the pure
//! request-to-reply logic behind five HTTP route groups (authentication,
//! course management, syllabus management, analytics, and past-year-question
//! management), plus a health check.
//!
//! Every handler here is a pure function from an already-decoded request to a
//! typed reply; each one's contract pins the status code and every field of
//! the body it returns. Transport concerns — listening, routing, JSON
//! encoding and decoding — live outside this crate and hand handlers plain
//! values.

use vstd::prelude::*;

pub mod analytics;
pub mod auth;
pub mod cms;
pub mod pyq;
pub mod reply;
pub mod syllabus;

use crate::reply::HttpReply;
use crate::reply::STATUS_OK;

verus! {

/// A registered user as the service models it. Nominally created on
/// registration; no handler currently stores or retrieves one.
#[derive(Debug, Clone)]
pub struct User {
    pub id: String,
    pub email: String,
    pub name: String,
    pub role: String,
}

/// Process-wide state: a mapping from user identifier to user record.
/// Declared for the service's lifetime but never read or written by any
/// handler — every handler is a pure function of its own arguments.
pub struct AppState {
    pub users: std::collections::HashMap<String, User>,
}

impl AppState {
    /// Fresh state for a starting service: no users.
    pub fn new() -> (r: AppState)
        ensures
            r.users@ == Map::<String, User>::empty(),
    {
        AppState { users: std::collections::HashMap::new() }
    }
}

/// The body of the health-check reply: a single status line.
#[derive(Debug)]
pub struct HealthBody {
    pub status: String,
}

/// Answers `GET /health`: status 200 and a fixed line reporting that the
/// service is running.
pub fn health_check() -> (r: HttpReply<HealthBody>)
    ensures
        r.status == STATUS_OK,
        r.body.status@ == "LMS Microservice - Rust is running"@,
{
    HttpReply { status: STATUS_OK, body: HealthBody { status: "LMS Microservice - Rust is running".to_owned() } }
}

/// `needle` occurs as a contiguous run of characters inside `hay`.
pub open spec fn has_substring(hay: Seq<char>, needle: Seq<char>) -> bool {
    exists|i: int|
        0 <= i && i + needle.len() <= hay.len() && #[trigger] hay.subrange(i, i + needle.len())
            == needle
}

/// The status line of every health-check reply mentions that the service is
/// running: the word "running" occurs in it.
pub proof fn lemma_health_status_mentions_running()
    ensures
        has_substring("LMS Microservice - Rust is running"@, "running"@),
{
    reveal_strlit("LMS Microservice - Rust is running");
    reveal_strlit("running");
    let hay = "LMS Microservice - Rust is running"@;
    let needle = "running"@;
    assert(hay.subrange(27, 27 + needle.len() as int) =~= needle);
}

/// No course persists across requests: whatever reply course creation gave,
/// a later listing still answers the empty sequence. Both handlers are pure,
/// so their contracts alone settle this for every pair of calls.
pub proof fn lemma_courses_do_not_persist(
    req: cms::CreateCourseRequest,
    created: HttpReply<cms::Course>,
    listed: HttpReply<Vec<cms::Course>>,
)
    requires
        call_ensures(cms::create_course, (req,), created),
        call_ensures(cms::get_courses, (), listed),
    ensures
        listed.body@ == Seq::<cms::Course>::empty(),
        listed.status == STATUS_OK,
{
}

} // verus!

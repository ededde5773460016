//! Course-management (CMS) routes: create, list, get, update, delete. All
//! are stubs over no storage: a created course gets a hardcoded identifier,
//! the list is always empty, and lookups echo the requested identifier with
//! a fixed title.

use vstd::prelude::*;

use crate::reply::HttpReply;
use crate::reply::MessageBody;
use crate::reply::STATUS_CREATED;
use crate::reply::STATUS_OK;

verus! {

/// A course record as replies carry it.
#[derive(Debug, Clone)]
pub struct Course {
    pub id: u32,
    pub title: String,
    pub description: String,
    pub instructor: String,
    pub duration: u32,
}

/// Body of `POST /api/cms/courses` and of `PUT /api/cms/courses/{id}`.
#[derive(Debug)]
pub struct CreateCourseRequest {
    pub title: String,
    pub description: String,
    pub instructor: String,
    pub duration: u32,
}

/// Body of a get-course or update-course reply: the identifier and a title.
#[derive(Debug)]
pub struct CourseSummaryBody {
    pub id: u32,
    pub title: String,
}

/// Answers `POST /api/cms/courses`: status 201 and a course built from the
/// request with the identifier hardcoded to 1. Nothing is persisted and no
/// uniqueness is checked.
pub fn create_course(req: CreateCourseRequest) -> (r: HttpReply<Course>)
    ensures
        r.status == STATUS_CREATED,
        r.body.id == 1,
        r.body.title == req.title,
        r.body.description == req.description,
        r.body.instructor == req.instructor,
        r.body.duration == req.duration,
{
    HttpReply {
        status: STATUS_CREATED,
        body: Course {
            id: 1,
            title: req.title,
            description: req.description,
            instructor: req.instructor,
            duration: req.duration,
        },
    }
}

/// Answers `GET /api/cms/courses`: status 200 and an empty sequence. The
/// function takes no state at all, so the answer is the same whatever was
/// posted before — there is no persistence to round-trip through.
pub fn get_courses() -> (r: HttpReply<Vec<Course>>)
    ensures
        r.status == STATUS_OK,
        r.body@ == Seq::<Course>::empty(),
{
    HttpReply { status: STATUS_OK, body: Vec::new() }
}

/// Answers `GET /api/cms/courses/{id}`: status 200, the requested identifier
/// echoed back, and a fixed title. No lookup happens.
pub fn get_course(id: u32) -> (r: HttpReply<CourseSummaryBody>)
    ensures
        r.status == STATUS_OK,
        r.body.id == id,
        r.body.title@ == "Sample Course"@,
{
    HttpReply { status: STATUS_OK, body: CourseSummaryBody { id, title: "Sample Course".to_owned() } }
}

/// Answers `PUT /api/cms/courses/{id}`: status 200, the requested identifier
/// and the new title echoed back. No stored record changes.
pub fn update_course(id: u32, req: CreateCourseRequest) -> (r: HttpReply<CourseSummaryBody>)
    ensures
        r.status == STATUS_OK,
        r.body.id == id,
        r.body.title == req.title,
{
    HttpReply { status: STATUS_OK, body: CourseSummaryBody { id, title: req.title } }
}

/// Answers `DELETE /api/cms/courses/{id}`: status 200 and a fixed
/// acknowledgment. Nothing is deleted because nothing is stored.
pub fn delete_course(_id: u32) -> (r: HttpReply<MessageBody>)
    ensures
        r.status == STATUS_OK,
        r.body.message@ == "Course deleted successfully"@,
{
    HttpReply { status: STATUS_OK, body: MessageBody { message: "Course deleted successfully".to_owned() } }
}

} // verus!

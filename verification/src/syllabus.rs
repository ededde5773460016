//! Syllabus routes: create, get-by-course, update. All are stubs over no
//! storage: a created syllabus gets a hardcoded identifier, the per-course
//! list is always empty, and an update only echoes identifiers.

use vstd::prelude::*;

use crate::reply::HttpReply;
use crate::reply::STATUS_CREATED;
use crate::reply::STATUS_OK;

verus! {

/// Body of `POST /api/syllabus/create` and of `PUT /api/syllabus/{id}`.
#[derive(Debug)]
pub struct CreateSyllabusRequest {
    pub course_id: u32,
    pub topics: Vec<String>,
    pub duration: u32,
    pub objectives: Vec<String>,
}

/// A syllabus record: a course's ordered topics and objectives. Only the
/// empty per-course listing ever carries this type.
#[derive(Debug)]
pub struct Syllabus {
    pub course_id: u32,
    pub topics: Vec<String>,
    pub duration: u32,
    pub objectives: Vec<String>,
}

/// Body of a create-syllabus reply: the new identifier, the course it
/// belongs to, and its topics.
#[derive(Debug)]
pub struct SyllabusCreatedBody {
    pub id: u32,
    pub course_id: u32,
    pub topics: Vec<String>,
}

/// Body of an update-syllabus reply: identifiers only.
#[derive(Debug)]
pub struct SyllabusUpdatedBody {
    pub id: u32,
    pub course_id: u32,
}

/// Answers `POST /api/syllabus/create`: status 201, the identifier
/// hardcoded to 1, and the request's course and topics echoed back. Nothing
/// is persisted.
pub fn create_syllabus(req: CreateSyllabusRequest) -> (r: HttpReply<SyllabusCreatedBody>)
    ensures
        r.status == STATUS_CREATED,
        r.body.id == 1,
        r.body.course_id == req.course_id,
        r.body.topics == req.topics,
{
    HttpReply {
        status: STATUS_CREATED,
        body: SyllabusCreatedBody { id: 1, course_id: req.course_id, topics: req.topics },
    }
}

/// Answers `GET /api/syllabus/course/{course_id}`: status 200 and an empty
/// sequence, whatever the course — nothing is ever stored to list.
pub fn get_syllabus(_course_id: u32) -> (r: HttpReply<Vec<Syllabus>>)
    ensures
        r.status == STATUS_OK,
        r.body@ == Seq::<Syllabus>::empty(),
{
    HttpReply { status: STATUS_OK, body: Vec::new() }
}

/// Answers `PUT /api/syllabus/{id}`: status 200 with the requested
/// identifier and the request's course echoed back. No stored record
/// changes.
pub fn update_syllabus(id: u32, req: CreateSyllabusRequest) -> (r: HttpReply<SyllabusUpdatedBody>)
    ensures
        r.status == STATUS_OK,
        r.body.id == id,
        r.body.course_id == req.course_id,
{
    HttpReply { status: STATUS_OK, body: SyllabusUpdatedBody { id, course_id: req.course_id } }
}

} // verus!

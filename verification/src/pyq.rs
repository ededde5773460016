//! Past-year-question (PYQ) routes: create a question set, list a course's
//! sets, get a set by year. All are stubs over no storage: a created set
//! gets a hardcoded identifier, the listing is always empty, and a by-year
//! lookup only echoes the identifiers.

use vstd::prelude::*;

use crate::reply::HttpReply;
use crate::reply::STATUS_CREATED;
use crate::reply::STATUS_OK;

verus! {

/// Body of `POST /api/pyq/create`.
#[derive(Debug)]
pub struct CreatePyqRequest {
    pub course_id: u32,
    pub year: u32,
    pub questions: Vec<String>,
    pub duration: u32,
    pub total_marks: u32,
}

/// A past-year-question set: a course's questions for one year. Only the
/// empty per-course listing ever carries this type.
#[derive(Debug)]
pub struct Pyq {
    pub course_id: u32,
    pub year: u32,
    pub questions: Vec<String>,
    pub duration: u32,
    pub total_marks: u32,
}

/// Body of a create reply: the new identifier and the request's course and
/// year.
#[derive(Debug)]
pub struct PyqCreatedBody {
    pub id: u32,
    pub course_id: u32,
    pub year: u32,
}

/// Body of a by-year reply: the identifiers asked about.
#[derive(Debug)]
pub struct PyqYearBody {
    pub course_id: u32,
    pub year: u32,
}

/// Answers `POST /api/pyq/create`: status 201, the identifier hardcoded to
/// 1, and the request's course and year echoed back. Nothing is persisted.
pub fn create_pyq(req: CreatePyqRequest) -> (r: HttpReply<PyqCreatedBody>)
    ensures
        r.status == STATUS_CREATED,
        r.body.id == 1,
        r.body.course_id == req.course_id,
        r.body.year == req.year,
{
    HttpReply {
        status: STATUS_CREATED,
        body: PyqCreatedBody { id: 1, course_id: req.course_id, year: req.year },
    }
}

/// Answers `GET /api/pyq/course/{course_id}`: status 200 and an empty
/// sequence, whatever the course — nothing is ever stored to list.
pub fn get_pyqs(_course_id: u32) -> (r: HttpReply<Vec<Pyq>>)
    ensures
        r.status == STATUS_OK,
        r.body@ == Seq::<Pyq>::empty(),
{
    HttpReply { status: STATUS_OK, body: Vec::new() }
}

/// Answers `GET /api/pyq/course/{course_id}/year/{year}`: status 200 with
/// both identifiers echoed back and nothing else — no set is looked up.
pub fn get_pyq_by_year(course_id: u32, year: u32) -> (r: HttpReply<PyqYearBody>)
    ensures
        r.status == STATUS_OK,
        r.body.course_id == course_id,
        r.body.year == year,
{
    HttpReply { status: STATUS_OK, body: PyqYearBody { course_id, year } }
}

} // verus!

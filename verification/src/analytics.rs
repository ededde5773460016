//! Analytics routes: track an activity, read a user's progress, read a
//! course's totals. All are stubs: activities are acknowledged and
//! discarded, and every figure returned is zero.

use vstd::prelude::*;

use crate::reply::HttpReply;
use crate::reply::MessageBody;
use crate::reply::STATUS_OK;

verus! {

/// Body of `POST /api/analytics/track`.
#[derive(Debug)]
pub struct TrackActivityRequest {
    pub user_id: String,
    pub course_id: u32,
    pub action: String,
    pub timestamp: String,
}

/// Body of a progress reply: the identifiers asked about and a progress
/// figure, which is always zero since no activity is recorded.
#[derive(Debug)]
pub struct ProgressBody {
    pub user_id: String,
    pub course_id: u32,
    pub progress: u32,
}

/// Body of a course-analytics reply: the course asked about and totals,
/// which are always zero since no activity is recorded.
#[derive(Debug)]
pub struct CourseAnalyticsBody {
    pub course_id: u32,
    pub total_users: u32,
    pub total_activities: u32,
}

/// Answers `POST /api/analytics/track`: status 200 and a fixed
/// acknowledgment. The activity itself is discarded.
pub fn track_activity(_req: TrackActivityRequest) -> (r: HttpReply<MessageBody>)
    ensures
        r.status == STATUS_OK,
        r.body.message@ == "Activity tracked"@,
{
    HttpReply { status: STATUS_OK, body: MessageBody { message: "Activity tracked".to_owned() } }
}

/// Answers `GET /api/analytics/progress/{user_id}/{course_id}`: status 200,
/// both identifiers echoed back, and progress zero.
pub fn get_progress(user_id: String, course_id: u32) -> (r: HttpReply<ProgressBody>)
    ensures
        r.status == STATUS_OK,
        r.body.user_id == user_id,
        r.body.course_id == course_id,
        r.body.progress == 0,
{
    HttpReply { status: STATUS_OK, body: ProgressBody { user_id, course_id, progress: 0 } }
}

/// Answers `GET /api/analytics/course/{course_id}`: status 200, the course
/// echoed back, and both totals zero.
pub fn get_course_analytics(course_id: u32) -> (r: HttpReply<CourseAnalyticsBody>)
    ensures
        r.status == STATUS_OK,
        r.body.course_id == course_id,
        r.body.total_users == 0,
        r.body.total_activities == 0,
{
    HttpReply { status: STATUS_OK, body: CourseAnalyticsBody { course_id, total_users: 0, total_activities: 0 } }
}

} // verus!

//! Authentication routes: register, login, logout. All three are stubs —
//! nothing is stored, no credential is checked, and the login token is a
//! fixed placeholder.

use vstd::prelude::*;

use crate::reply::HttpReply;
use crate::reply::MessageBody;
use crate::reply::STATUS_CREATED;
use crate::reply::STATUS_OK;

verus! {

/// Body of `POST /api/auth/register`.
#[derive(Debug)]
pub struct RegisterRequest {
    pub email: String,
    pub password: String,
    pub name: String,
    pub role: String,
}

/// Body of `POST /api/auth/login`.
#[derive(Debug)]
pub struct LoginRequest {
    pub email: String,
    pub password: String,
}

/// The user summary inside a login reply.
#[derive(Debug)]
pub struct LoginUser {
    pub email: String,
    pub role: String,
}

/// Body of a successful login reply: a credential token and a user summary.
#[derive(Debug)]
pub struct LoginBody {
    pub token: String,
    pub user: LoginUser,
}

/// Answers `POST /api/auth/register`: status 201 and a fixed acknowledgment,
/// whatever the request holds. No duplicate-email check, no hashing, no
/// storage.
pub fn register(_req: RegisterRequest) -> (r: HttpReply<MessageBody>)
    ensures
        r.status == STATUS_CREATED,
        r.body.message@ == "User registered successfully"@,
{
    HttpReply { status: STATUS_CREATED, body: MessageBody { message: "User registered successfully".to_owned() } }
}

/// Answers `POST /api/auth/login`: status 200, a placeholder token, the
/// request's email echoed back, and a hardcoded role. No credential is
/// verified.
pub fn login(req: LoginRequest) -> (r: HttpReply<LoginBody>)
    ensures
        r.status == STATUS_OK,
        r.body.token@ == "jwt_token_here"@,
        r.body.user.email == req.email,
        r.body.user.role@ == "student"@,
{
    HttpReply {
        status: STATUS_OK,
        body: LoginBody {
            token: "jwt_token_here".to_owned(),
            user: LoginUser { email: req.email, role: "student".to_owned() },
        },
    }
}

/// Answers `POST /api/auth/logout`: status 200 and a fixed acknowledgment.
/// There is no session to invalidate.
pub fn logout() -> (r: HttpReply<MessageBody>)
    ensures
        r.status == STATUS_OK,
        r.body.message@ == "Logged out successfully"@,
{
    HttpReply { status: STATUS_OK, body: MessageBody { message: "Logged out successfully".to_owned() } }
}

} // verus!

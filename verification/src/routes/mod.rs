use vstd::prelude::*;

pub mod llm_models;
pub mod sessions;
pub mod admin_users;
pub mod profile;
pub mod dynamic_agents;
pub mod admin_dashboard;
pub mod projects;
pub mod personality;

verus! {

/// How a request was refused: an HTTP status code and the message sent back.
#[derive(Debug, Clone, PartialEq, Eq)]
pub struct ApiError {
    pub status: u16,
    pub message: String,
}

pub const BAD_REQUEST: u16 = 400;
pub const FORBIDDEN: u16 = 403;
pub const NOT_FOUND: u16 = 404;
pub const CONFLICT: u16 = 409;
pub const INTERNAL_SERVER_ERROR: u16 = 500;
pub const BAD_GATEWAY: u16 = 502;
pub const SERVICE_UNAVAILABLE: u16 = 503;

/// `e` carries `status` and `message`.
pub open spec fn is_error(e: ApiError, status: u16, message: Seq<char>) -> bool {
    e.status == status && e.message@ == message
}

/// A refusal with this status and message.
pub fn api_error(status: u16, message: &str) -> (e: ApiError)
    ensures
        is_error(e, status, message@),
{
    ApiError { status, message: message.to_owned() }
}

} // verus!

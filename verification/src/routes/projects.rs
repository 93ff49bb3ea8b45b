use vstd::prelude::*;
use vstd::utf8::encode_utf8;

verus! {

/// A file of a project, as the workspace lists it.
#[derive(Debug, Clone, PartialEq, Eq)]
pub struct ProjectFileSummary {
    pub path: String,
    pub content_type: String,
    pub size_bytes: i32,
}

/// New content for a project file.
#[derive(Debug, Clone)]
pub struct PutFileRequest {
    pub content: String,
}

/// The size recorded for a file's content: its length in UTF-8 bytes, cast to a 32-bit count
/// (wrapping past 2 GiB, as the cast does).
pub fn recorded_size(content: &str) -> (n: i32)
    ensures
        n == encode_utf8(content@).len() as i32,
{
    let bytes = content.as_bytes();
    #[verifier::truncate] (bytes.len() as i32)
}

} // verus!

verus! {

/// A project in the user's project list.
#[derive(Debug, Clone)]
pub struct ProjectSummary {
    pub id: u128,
    pub session_id: u128,
    pub name: String,
    pub description: Option<String>,
    pub status: String,
    pub created_at: crate::time::UtcInstant,
    pub updated_at: crate::time::UtcInstant,
}

/// The chat and project a new project session opened.
#[derive(Debug, Clone, Copy, PartialEq, Eq)]
pub struct CreateProjectSessionResponse {
    pub session_id: u128,
    pub project_id: u128,
}

/// A project with its plan and files.
#[derive(Debug, Clone)]
pub struct ProjectDetailResponse {
    pub id: u128,
    pub name: String,
    pub description: Option<String>,
    pub plan: Option<String>,
    pub status: String,
    pub files: Vec<ProjectFileSummary>,
}

} // verus!

use vstd::prelude::*;

use crate::routes::{api_error, is_error, ApiError, BAD_REQUEST, FORBIDDEN};
use crate::text::{blank, is_blank, str_eq};

verus! {

/// Managing users takes the "admin/user" permission for the action at hand.
pub fn require_user_permission(permitted: bool) -> (r: Result<(), ApiError>)
    ensures
        permitted ==> r is Ok,
        !permitted ==> (r matches Err(e) && is_error(e, FORBIDDEN, "not authorized to manage users"@)),
{
    if permitted {
        Ok(())
    } else {
        Err(api_error(FORBIDDEN, "not authorized to manage users"))
    }
}

/// A page of the user list, optionally searching emails.
#[derive(Debug, Clone)]
pub struct UserListQuery {
    pub query: Option<String>,
    pub page: Option<i64>,
    pub page_size: Option<i64>,
}

/// The page asked for: the first unless asked, and never before the first.
pub open spec fn list_page(q: UserListQuery) -> int {
    match q.page {
        Some(p) => if p < 1 { 1 } else { p as int },
        None => 1,
    }
}

/// The page size asked for: 20 unless asked, and between 1 and 100.
pub open spec fn list_page_size(q: UserListQuery) -> int {
    match q.page_size {
        Some(s) => if s < 1 { 1 } else if s > 100 { 100 } else { s as int },
        None => 20,
    }
}

/// The rows a page of the user list covers: how many, and how many come before them. The
/// offset must fit in 64 bits.
pub fn user_list_window(q: &UserListQuery) -> (r: (i64, i64))
    requires
        (list_page(*q) - 1) * list_page_size(*q) <= i64::MAX,
    ensures
        r.0 == list_page_size(*q),
        r.1 == (list_page(*q) - 1) * list_page_size(*q),
{
    let page: i64 = match q.page {
        Some(p) => if p < 1 { 1 } else { p },
        None => 1,
    };
    let page_size: i64 = match q.page_size {
        Some(s) => if s < 1 { 1 } else if s > 100 { 100 } else { s },
        None => 20,
    };
    assert(0 <= (page - 1) * page_size) by (nonlinear_arith)
        requires
            page >= 1,
            page_size >= 1,
    ;
    (page_size, (page - 1) * page_size)
}

/// The email search term: none when the query is missing or blank.
pub fn search_term(query: Option<String>) -> (r: Option<String>)
    ensures
        match query {
            Some(s) => if is_blank(s@) { r is None } else { r == Some(s) },
            None => r is None,
        },
{
    match query {
        Some(s) => if blank(s.as_str()) {
            None
        } else {
            Some(s)
        },
        None => None,
    }
}

/// One user in the administrators' user list.
#[derive(Debug, Clone)]
pub struct UserSummary {
    pub id: u128,
    pub email: String,
    pub is_platform_admin: bool,
    /// A platform administrator, or someone holding any administrative grant.
    pub is_staff: bool,
    pub org_count: i64,
}

/// The users of one page, and how many users match in all.
#[derive(Debug, Clone)]
pub struct UserListResponse {
    pub users: Vec<UserSummary>,
    pub total: i64,
}

/// A user as listed, from (id, email, platform administrator, holds an administrative grant,
/// active organizations).
pub fn to_user_summary(row: (u128, String, bool, bool, i64)) -> (u: UserSummary)
    ensures
        u.id == row.0,
        u.email == row.1,
        u.is_platform_admin == row.2,
        u.is_staff == (row.2 || row.3),
        u.org_count == row.4,
{
    let (id, email, is_platform_admin, has_admin_grant, org_count) = row;
    UserSummary { id, email, is_platform_admin, is_staff: is_platform_admin || has_admin_grant, org_count }
}

/// A grant's scope is "admin" or "org".
pub fn validate_scope_type(scope_type: &str) -> (r: Result<(), ApiError>)
    ensures
        (scope_type@ == "admin"@ || scope_type@ == "org"@) ==> r is Ok,
        !(scope_type@ == "admin"@ || scope_type@ == "org"@) ==> (r matches Err(e) && is_error(
            e,
            BAD_REQUEST,
            "scope_type must be 'admin' or 'org'"@,
        )),
{
    if str_eq(scope_type, "admin") || str_eq(scope_type, "org") {
        Ok(())
    } else {
        Err(api_error(BAD_REQUEST, "scope_type must be 'admin' or 'org'"))
    }
}

/// A role in an organization is "owner", "admin" or "member".
pub fn validate_role(role: &str) -> (r: Result<(), ApiError>)
    ensures
        (role@ == "owner"@ || role@ == "admin"@ || role@ == "member"@) ==> r is Ok,
        !(role@ == "owner"@ || role@ == "admin"@ || role@ == "member"@) ==> (r matches Err(e) && is_error(
            e,
            BAD_REQUEST,
            "role must be owner, admin, or member"@,
        )),
{
    if str_eq(role, "owner") || str_eq(role, "admin") || str_eq(role, "member") {
        Ok(())
    } else {
        Err(api_error(BAD_REQUEST, "role must be owner, admin, or member"))
    }
}

} // verus!

verus! {

/// A user's active membership of an organization.
#[derive(Debug, Clone, PartialEq, Eq)]
pub struct MembershipRow {
    pub org_id: u128,
    pub org_name: String,
    pub role: String,
}

/// A permission grant to add to a user.
#[derive(Debug, Clone)]
pub struct GrantPermissionRequest {
    pub scope_type: String,
    pub org_id: Option<u128>,
    pub resource: String,
    pub actions: Vec<String>,
}

/// Adding a user to an organization in a role.
#[derive(Debug, Clone)]
pub struct AssignOrgRequest {
    pub org_id: u128,
    pub role: String,
}

/// An organization an administrator can pick.
#[derive(Debug, Clone, PartialEq, Eq)]
pub struct OrgOption {
    pub id: u128,
    pub name: String,
}

} // verus!

use vstd::prelude::*;

use crate::ids::{format_uuid, uuid_text};
use crate::routes::{api_error, is_error, ApiError, BAD_REQUEST, CONFLICT, INTERNAL_SERVER_ERROR, SERVICE_UNAVAILABLE};
use crate::text::{chars_of, join2, str_eq};

verus! {

/// A user's profile.
#[derive(Debug, Clone)]
pub struct ProfileResponse {
    pub display_name: Option<String>,
    pub username: Option<String>,
    pub email: String,
    pub avatar_url: Option<String>,
}

/// A profile edit: what is missing (or, for names, empty) keeps its stored value.
#[derive(Debug, Clone)]
pub struct UpdateProfileRequest {
    pub display_name: Option<String>,
    pub username: Option<String>,
    pub avatar_url: Option<String>,
}

/// Characters a username may hold.
pub open spec fn username_char(c: char) -> bool {
    ('a' <= c && c <= 'z') || ('A' <= c && c <= 'Z') || ('0' <= c && c <= '9') || c == '_' || c == '.'
}

/// An empty username, or one of letters, digits, underscores and periods.
pub open spec fn acceptable_username(u: Seq<char>) -> bool {
    forall|i: int| 0 <= i < u.len() ==> username_char(#[trigger] u[i])
}

/// A username, when one is given, may only hold ASCII letters and digits, underscores and
/// periods.
pub fn validate_username(username: &Option<String>) -> (r: Result<(), ApiError>)
    ensures
        match username {
            Some(u) => if acceptable_username(u@) {
                r is Ok
            } else {
                r matches Err(e) && is_error(
                    e,
                    BAD_REQUEST,
                    "username may only contain letters, numbers, underscores, and periods"@,
                )
            },
            None => r is Ok,
        },
{
    if let Some(u) = username {
        let cs = chars_of(u.as_str());
        let mut i: usize = 0;
        while i < cs.len()
            invariant
                cs@ == u@,
                *username == Some(*u),
                i <= cs.len(),
                forall|j: int| 0 <= j < i ==> username_char(#[trigger] cs@[j]),
            decreases cs.len() - i,
        {
            let c = cs[i];
            let ok = ('a' <= c && c <= 'z') || ('A' <= c && c <= 'Z') || ('0' <= c && c <= '9') || c == '_'
                || c == '.';
            if !ok {
                assert(!username_char(u@[i as int]));
                return Err(api_error(BAD_REQUEST, "username may only contain letters, numbers, underscores, and periods"));
            }
            i = i + 1;
        }
    }
    Ok(())
}

/// A name field of an edit: an empty one counts as not given.
pub open spec fn given_name(o: Option<String>) -> Option<String> {
    match o {
        Some(s) => if s@.len() == 0 { None } else { Some(s) },
        None => None,
    }
}

/// The values an edit stores over the profile (missing ones keep the stored value): the
/// display name and username unless empty, the avatar URL as given.
pub fn profile_update_values(req: UpdateProfileRequest) -> (r: (Option<String>, Option<String>, Option<String>))
    ensures
        r.0 == given_name(req.display_name),
        r.1 == given_name(req.username),
        r.2 == req.avatar_url,
{
    let display_name = match req.display_name {
        Some(s) => if s.as_str().is_empty() {
            None
        } else {
            Some(s)
        },
        None => None,
    };
    let username = match req.username {
        Some(s) => if s.as_str().is_empty() {
            None
        } else {
            Some(s)
        },
        None => None,
    };
    (display_name, username, req.avatar_url)
}

/// A profile from its stored (display name, username, avatar URL), nothing stored meaning none
/// of them, and the account's email.
pub fn profile_response(
    row: Option<(Option<String>, Option<String>, Option<String>)>,
    email: String,
) -> (p: ProfileResponse)
    ensures
        match row {
            Some((d, u, a)) => p.display_name == d && p.username == u && p.avatar_url == a,
            None => p.display_name is None && p.username is None && p.avatar_url is None,
        },
        p.email == email,
{
    let (display_name, username, avatar_url) = match row {
        Some(r) => r,
        None => (None, None, None),
    };
    ProfileResponse { display_name, username, email, avatar_url }
}

/// How a failed profile save is answered: a taken username is a conflict.
pub fn profile_save_error(unique_violation: bool) -> (e: ApiError)
    ensures
        unique_violation ==> is_error(e, CONFLICT, "that username is already taken"@),
        !unique_violation ==> is_error(e, INTERNAL_SERVER_ERROR, "failed to save profile"@),
{
    if unique_violation {
        api_error(CONFLICT, "that username is already taken")
    } else {
        api_error(INTERNAL_SERVER_ERROR, "failed to save profile")
    }
}

/// A request for somewhere to upload an avatar image of this type.
#[derive(Debug, Clone)]
pub struct AvatarUploadUrlRequest {
    pub content_type: String,
}

/// Where to upload the avatar, and where it will then be served.
#[derive(Debug, Clone)]
pub struct AvatarUploadUrlResponse {
    pub upload_url: String,
    pub public_url: String,
}

/// The file extension of an avatar image type, for the four types accepted.
pub open spec fn avatar_extension_of(content_type: Seq<char>) -> Option<Seq<char>> {
    if content_type == "image/png"@ {
        Some("png"@)
    } else if content_type == "image/jpeg"@ {
        Some("jpg"@)
    } else if content_type == "image/webp"@ {
        Some("webp"@)
    } else if content_type == "image/gif"@ {
        Some("gif"@)
    } else {
        None
    }
}

/// Avatar uploads need storage to be configured, and an image type that is PNG, JPEG, WebP or
/// GIF; the answer is that type's file extension.
pub fn avatar_extension(storage_configured: bool, content_type: &str) -> (r: Result<&'static str, ApiError>)
    ensures
        !storage_configured ==> (r matches Err(e) && is_error(e, SERVICE_UNAVAILABLE, "avatar upload is not configured"@)),
        storage_configured ==> match avatar_extension_of(content_type@) {
            Some(x) => r matches Ok(s) && s@ == x,
            None => r matches Err(e) && is_error(
                e,
                BAD_REQUEST,
                "content_type must be an image/png, image/jpeg, image/webp, or image/gif"@,
            ),
        },
{
    proof {
        reveal_strlit("png");
        reveal_strlit("jpg");
        reveal_strlit("webp");
        reveal_strlit("gif");
    }
    if !storage_configured {
        return Err(api_error(SERVICE_UNAVAILABLE, "avatar upload is not configured"));
    }
    if str_eq(content_type, "image/png") {
        Ok("png")
    } else if str_eq(content_type, "image/jpeg") {
        Ok("jpg")
    } else if str_eq(content_type, "image/webp") {
        Ok("webp")
    } else if str_eq(content_type, "image/gif") {
        Ok("gif")
    } else {
        Err(api_error(BAD_REQUEST, "content_type must be an image/png, image/jpeg, image/webp, or image/gif"))
    }
}

/// The object key of a new avatar: `avatars/{user}/{object}.{extension}`.
pub fn avatar_key(user_id: u128, object_id: u128, extension: &str) -> (k: String)
    ensures
        k@ == "avatars/"@ + uuid_text(user_id) + "/"@ + uuid_text(object_id) + "."@ + extension@,
{
    let user = format_uuid(user_id);
    let object = format_uuid(object_id);
    let a = join2("avatars/", user.as_str());
    let b = join2(a.as_str(), "/");
    let c = join2(b.as_str(), object.as_str());
    let d = join2(c.as_str(), ".");
    join2(d.as_str(), extension)
}

/// A user's display preferences.
#[derive(Debug, Clone)]
pub struct PreferencesResponse {
    pub theme: String,
}

/// A change of display preferences.
#[derive(Debug, Clone)]
pub struct UpdatePreferencesRequest {
    pub theme: String,
}

/// The stored theme, "system" when none is stored.
pub fn preferences_response(theme: Option<String>) -> (p: PreferencesResponse)
    ensures
        match theme {
            Some(t) => p.theme == t,
            None => p.theme@ == "system"@,
        },
{
    PreferencesResponse {
        theme: match theme {
            Some(t) => t,
            None => "system".to_owned(),
        },
    }
}

/// A theme is "light", "dark" or "system".
pub fn validate_theme(theme: &str) -> (r: Result<(), ApiError>)
    ensures
        (theme@ == "light"@ || theme@ == "dark"@ || theme@ == "system"@) ==> r is Ok,
        !(theme@ == "light"@ || theme@ == "dark"@ || theme@ == "system"@) ==> (r matches Err(e) && is_error(
            e,
            BAD_REQUEST,
            "theme must be 'light', 'dark', or 'system'"@,
        )),
{
    if str_eq(theme, "light") || str_eq(theme, "dark") || str_eq(theme, "system") {
        Ok(())
    } else {
        Err(api_error(BAD_REQUEST, "theme must be 'light', 'dark', or 'system'"))
    }
}

} // verus!

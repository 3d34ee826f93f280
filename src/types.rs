//! The upstream platform's data shapes, and how each is read from JSON.

use vstd::prelude::*;
use crate::json::{Json, field, text_of, optional_text_of, int_of, opt_view};
use crate::text::{same_text, decimal_digits, decimal_string, signed_decimal_digits, signed_decimal_string};

verus! {

broadcast use vstd::string::group_string_axioms;

/// A block containing markdown text, used as part of a post.
#[derive(Debug, Clone)]
pub struct MarkdownBlock {
    /// Text, in markdown.
    pub content: String,
}

/// An attachment used in a post, normally an image.
#[derive(Debug, Clone)]
pub struct AttachmentBlock {
    /// Alt text, used for screen readers; empty if there is none.
    pub alt_text: String,
    /// Identifier of the attachment.
    pub attachment_id: String,
    /// Where the file is served.
    pub file_url: String,
    /// An image preview of the file, often the same as `file_url`.
    pub preview_url: String,
}

/// The basic block a post is made of.
#[derive(Debug, Clone)]
pub enum Block {
    Markdown { markdown: MarkdownBlock },
    Attachment { attachment: AttachmentBlock },
}

/// Shape of the crop a client should use on an avatar.
#[derive(Debug, Clone, Copy, PartialEq, Eq, Structural)]
pub enum AvatarShape {
    Circle,
    RoundRect,
    Squircle,
    Egg,
    CapsuleBig,
    CapsuleSmall,
}

/// Visibility of a project's posts.
#[derive(Debug, Clone, Copy, PartialEq, Eq, Structural)]
pub enum Privacy {
    /// Shown to all.
    Public,
    /// Shown only to approved followers.
    Private,
}

/// A project: the upstream's name for an account's public profile.
#[derive(Debug)]
pub struct Project {
    pub avatar_preview_url: String,
    /// How to mask the avatar when shown.
    pub avatar_shape: AvatarShape,
    pub avatar_url: String,
    /// The headline shown above pronouns, link and description.
    pub headline: String,
    pub description: String,
    pub display_name: String,
    pub flags: Json,
    pub handle: String,
    pub header_preview_url: Option<String>,
    pub header_url: Option<String>,
    pub privacy: Privacy,
    pub project_id: u64,
    pub pronouns: Option<String>,
    pub url: Option<String>,
}

/// Paging information of a post listing.
#[derive(Debug, Clone)]
pub struct Pagination {
    pub current_page: u64,
    pub more_pages_forward: bool,
    pub next_page: u64,
}

/// Whether the viewer may do a thing.
#[derive(Debug, Clone, Copy, PartialEq, Eq, Structural)]
pub enum AccessPermission {
    Allowed,
    NotAllowed,
}

/// What the viewer may do on a project's page.
#[derive(Debug, Clone, Copy, PartialEq, Eq, Structural)]
pub struct CanAccessPermissions {
    pub can_read: AccessPermission,
    pub can_interact: AccessPermission,
    pub can_share: AccessPermission,
    pub can_edit: AccessPermission,
}

/// The loader state of a project's page when the project exists.
#[derive(Debug)]
pub struct ProjectPageView {
    pub project: Project,
    pub page_handle: String,
    pub can_access_permissions: CanAccessPermissions,
}

/// The loader state of a page that could not be shown.
#[derive(Debug, Clone)]
pub struct CohostLoaderError {
    pub message: String,
    pub error_code: String,
}

/// The loader state embedded in a project's page.
#[derive(Debug)]
pub enum ProjectPageViewLoaderState {
    ProjectPageView(ProjectPageView),
    Error(CohostLoaderError),
}

/// Details of a failure reported by the batched query protocol.
#[derive(Debug, Clone)]
pub struct ErrorData {
    pub code: String,
    pub http_status: u16,
    pub path: String,
    pub stack: String,
}

/// A failure reported by the batched query protocol.
#[derive(Debug, Clone)]
pub struct CohostError {
    pub code: i64,
    pub data: ErrorData,
    pub message: String,
}

/// The session of a logged-in account.
#[derive(Debug, Clone)]
pub struct LoggedInData {
    pub logged_in: bool,
    pub user_id: u64,
    pub email: String,
    pub project_id: u64,
    pub project_handle: String,
    pub mod_mode: bool,
    pub activated: bool,
    pub read_only: bool,
}

/// Options of the profile posts query.
#[derive(Debug, Clone, Copy, PartialEq, Eq, Structural)]
pub struct ProfilePostsInputOptions {
    pub hide_replies: bool,
    pub hide_shares: bool,
}

/// Input of the profile posts query: one page of a project's posts.
#[derive(Debug, Clone)]
pub struct ProfilePostsInput {
    pub project_handle: String,
    pub page: u64,
    pub options: ProfilePostsInputOptions,
}

// ---------------------------------------------------------------------------
// Reading the shapes from JSON. Members that a shape does not name are
// ignored; an absent or `null` optional member is `None`.

/// The avatar shape a JSON member names.
pub open spec fn avatar_shape_of(v: Option<Json>) -> Option<AvatarShape> {
    match text_of(v) {
        Some(t) => if t == "circle"@ {
            Some(AvatarShape::Circle)
        } else if t == "roundrect"@ {
            Some(AvatarShape::RoundRect)
        } else if t == "squircle"@ {
            Some(AvatarShape::Squircle)
        } else if t == "egg"@ {
            Some(AvatarShape::Egg)
        } else if t == "capsule-big"@ {
            Some(AvatarShape::CapsuleBig)
        } else if t == "capsule-small"@ {
            Some(AvatarShape::CapsuleSmall)
        } else {
            None
        },
        None => None,
    }
}

/// The privacy a JSON member names.
pub open spec fn privacy_of(v: Option<Json>) -> Option<Privacy> {
    match text_of(v) {
        Some(t) => if t == "public"@ {
            Some(Privacy::Public)
        } else if t == "private"@ {
            Some(Privacy::Private)
        } else {
            None
        },
        None => None,
    }
}

/// The access permission a JSON member names.
pub open spec fn access_of(v: Option<Json>) -> Option<AccessPermission> {
    match text_of(v) {
        Some(t) => if t == "allowed"@ {
            Some(AccessPermission::Allowed)
        } else if t == "not-allowed"@ {
            Some(AccessPermission::NotAllowed)
        } else {
            None
        },
        None => None,
    }
}

/// A JSON member that is an integer in `[lo, hi]`.
pub open spec fn int_in(v: Option<Json>, lo: int, hi: int) -> bool {
    match int_of(v) {
        Some(i) => lo <= i <= hi,
        None => false,
    }
}

/// Whether `j` holds every member a project needs, each of the right kind.
pub open spec fn project_readable(j: Json) -> bool {
    &&& text_of(field(j, "avatarPreviewURL"@)) is Some
    &&& avatar_shape_of(field(j, "avatarShape"@)) is Some
    &&& text_of(field(j, "avatarURL"@)) is Some
    &&& text_of(field(j, "dek"@)) is Some
    &&& text_of(field(j, "description"@)) is Some
    &&& text_of(field(j, "displayName"@)) is Some
    &&& field(j, "flags"@) is Some
    &&& text_of(field(j, "handle"@)) is Some
    &&& optional_text_of(field(j, "headerPreviewURL"@)) is Some
    &&& optional_text_of(field(j, "headerURL"@)) is Some
    &&& privacy_of(field(j, "privacy"@)) is Some
    &&& int_in(field(j, "projectId"@), 0, u64::MAX as int)
    &&& optional_text_of(field(j, "pronouns"@)) is Some
    &&& optional_text_of(field(j, "url"@)) is Some
}

/// Whether `p` is the project that `j` holds.
pub open spec fn project_read(j: Json, p: Project) -> bool {
    &&& text_of(field(j, "avatarPreviewURL"@)) == Some(p.avatar_preview_url@)
    &&& avatar_shape_of(field(j, "avatarShape"@)) == Some(p.avatar_shape)
    &&& text_of(field(j, "avatarURL"@)) == Some(p.avatar_url@)
    &&& text_of(field(j, "dek"@)) == Some(p.headline@)
    &&& text_of(field(j, "description"@)) == Some(p.description@)
    &&& text_of(field(j, "displayName"@)) == Some(p.display_name@)
    &&& field(j, "flags"@) == Some(p.flags)
    &&& text_of(field(j, "handle"@)) == Some(p.handle@)
    &&& optional_text_of(field(j, "headerPreviewURL"@)) == Some(opt_view(p.header_preview_url))
    &&& optional_text_of(field(j, "headerURL"@)) == Some(opt_view(p.header_url))
    &&& privacy_of(field(j, "privacy"@)) == Some(p.privacy)
    &&& int_of(field(j, "projectId"@)) == Some(p.project_id as int)
    &&& optional_text_of(field(j, "pronouns"@)) == Some(opt_view(p.pronouns))
    &&& optional_text_of(field(j, "url"@)) == Some(opt_view(p.url))
}

/// Whether `j` holds the detail of a failure, each member of the right kind.
pub open spec fn error_data_readable(j: Json) -> bool {
    &&& text_of(field(j, "code"@)) is Some
    &&& int_in(field(j, "httpStatus"@), 0, u16::MAX as int)
    &&& text_of(field(j, "path"@)) is Some
    &&& text_of(field(j, "stack"@)) is Some
}

/// Whether `e` is the failure detail that `j` holds.
pub open spec fn error_data_read(j: Json, e: ErrorData) -> bool {
    &&& text_of(field(j, "code"@)) == Some(e.code@)
    &&& int_of(field(j, "httpStatus"@)) == Some(e.http_status as int)
    &&& text_of(field(j, "path"@)) == Some(e.path@)
    &&& text_of(field(j, "stack"@)) == Some(e.stack@)
}

/// Whether `j` holds a failure of the batched query protocol.
pub open spec fn cohost_error_readable(j: Json) -> bool {
    &&& int_in(field(j, "code"@), i64::MIN as int, i64::MAX as int)
    &&& field(j, "data"@) matches Some(d) && error_data_readable(d)
    &&& text_of(field(j, "message"@)) is Some
}

/// Whether `e` is the failure that `j` holds.
pub open spec fn cohost_error_read(j: Json, e: CohostError) -> bool {
    &&& int_of(field(j, "code"@)) == Some(e.code as int)
    &&& field(j, "data"@) matches Some(d) && error_data_read(d, e.data)
    &&& text_of(field(j, "message"@)) == Some(e.message@)
}

/// Whether `j` holds the permissions of a page.
pub open spec fn permissions_readable(j: Json) -> bool {
    &&& access_of(field(j, "canRead"@)) is Some
    &&& access_of(field(j, "canInteract"@)) is Some
    &&& access_of(field(j, "canShare"@)) is Some
    &&& access_of(field(j, "canEdit"@)) is Some
}

/// The permissions that `j` holds.
pub open spec fn permissions_read(j: Json, p: CanAccessPermissions) -> bool {
    &&& access_of(field(j, "canRead"@)) == Some(p.can_read)
    &&& access_of(field(j, "canInteract"@)) == Some(p.can_interact)
    &&& access_of(field(j, "canShare"@)) == Some(p.can_share)
    &&& access_of(field(j, "canEdit"@)) == Some(p.can_edit)
}

/// Whether `j` holds the view of a project's page.
pub open spec fn page_view_readable(j: Json) -> bool {
    &&& field(j, "project"@) matches Some(p) && project_readable(p)
    &&& text_of(field(j, "pageHandle"@)) is Some
    &&& field(j, "canAccessPermissions"@) matches Some(c) && permissions_readable(c)
}

/// Whether `v` is the view of a project's page that `j` holds.
pub open spec fn page_view_read(j: Json, v: ProjectPageView) -> bool {
    &&& field(j, "project"@) matches Some(p) && project_read(p, v.project)
    &&& text_of(field(j, "pageHandle"@)) == Some(v.page_handle@)
    &&& field(j, "canAccessPermissions"@) matches Some(c) && permissions_read(c, v.can_access_permissions)
}

/// Whether `j` holds a loader error.
pub open spec fn loader_error_readable(j: Json) -> bool {
    &&& text_of(field(j, "message"@)) is Some
    &&& text_of(field(j, "errorCode"@)) is Some
}

/// Whether `e` is the loader error that `j` holds.
pub open spec fn loader_error_read(j: Json, e: CohostLoaderError) -> bool {
    &&& text_of(field(j, "message"@)) == Some(e.message@)
    &&& text_of(field(j, "errorCode"@)) == Some(e.error_code@)
}

/// The single member of an object that has exactly one.
pub open spec fn only_member(j: Json) -> Option<(Seq<char>, Json)> {
    match j {
        Json::Object(members) => if members@.len() == 1 {
            Some((members@[0].0@, members@[0].1))
        } else {
            None
        },
        _ => None,
    }
}

/// Whether `j` holds a loader state: an object whose one member is named
/// after the variant it holds.
pub open spec fn loader_state_readable(j: Json) -> bool {
    match only_member(j) {
        Some((tag, v)) => {
            ||| tag == "project-page-view"@ && page_view_readable(v)
            ||| tag == "error"@ && loader_error_readable(v)
        },
        None => false,
    }
}

/// Whether `s` is the loader state that `j` holds.
pub open spec fn loader_state_read(j: Json, s: ProjectPageViewLoaderState) -> bool {
    match only_member(j) {
        Some((tag, v)) => match s {
            ProjectPageViewLoaderState::ProjectPageView(view) => tag == "project-page-view"@
                && page_view_read(v, view),
            ProjectPageViewLoaderState::Error(e) => tag == "error"@ && loader_error_read(v, e),
        },
        None => false,
    }
}

fn avatar_shape_member(j: &Json, key: &str) -> (r: Option<AvatarShape>)
    ensures
        r == avatar_shape_of(field(*j, key@)),
{
    match j.get_text(key) {
        Some(t) => {
            let t = t.as_str();
            if same_text(t, "circle") {
                Some(AvatarShape::Circle)
            } else if same_text(t, "roundrect") {
                Some(AvatarShape::RoundRect)
            } else if same_text(t, "squircle") {
                Some(AvatarShape::Squircle)
            } else if same_text(t, "egg") {
                Some(AvatarShape::Egg)
            } else if same_text(t, "capsule-big") {
                Some(AvatarShape::CapsuleBig)
            } else if same_text(t, "capsule-small") {
                Some(AvatarShape::CapsuleSmall)
            } else {
                None
            }
        },
        None => None,
    }
}

fn privacy_member(j: &Json, key: &str) -> (r: Option<Privacy>)
    ensures
        r == privacy_of(field(*j, key@)),
{
    match j.get_text(key) {
        Some(t) => {
            if same_text(t.as_str(), "public") {
                Some(Privacy::Public)
            } else if same_text(t.as_str(), "private") {
                Some(Privacy::Private)
            } else {
                None
            }
        },
        None => None,
    }
}

fn access_member(j: &Json, key: &str) -> (r: Option<AccessPermission>)
    ensures
        r == access_of(field(*j, key@)),
{
    match j.get_text(key) {
        Some(t) => {
            if same_text(t.as_str(), "allowed") {
                Some(AccessPermission::Allowed)
            } else if same_text(t.as_str(), "not-allowed") {
                Some(AccessPermission::NotAllowed)
            } else {
                None
            }
        },
        None => None,
    }
}

impl Project {
    /// Reads a project from its JSON object.
    pub fn from_json(j: Json) -> (r: Option<Project>)
        ensures
            r is Some <==> project_readable(j),
            r matches Some(p) ==> project_read(j, p),
    {
        let mut j = j;
        let avatar_preview_url = match j.get_text("avatarPreviewURL") { Some(t) => t, None => return None };
        let avatar_shape = match avatar_shape_member(&j, "avatarShape") { Some(t) => t, None => return None };
        let avatar_url = match j.get_text("avatarURL") { Some(t) => t, None => return None };
        let headline = match j.get_text("dek") { Some(t) => t, None => return None };
        let description = match j.get_text("description") { Some(t) => t, None => return None };
        let display_name = match j.get_text("displayName") { Some(t) => t, None => return None };
        let handle = match j.get_text("handle") { Some(t) => t, None => return None };
        let header_preview_url = match j.get_optional_text("headerPreviewURL") { Some(t) => t, None => return None };
        let header_url = match j.get_optional_text("headerURL") { Some(t) => t, None => return None };
        let privacy = match privacy_member(&j, "privacy") { Some(t) => t, None => return None };
        let project_id = match j.get_int_in("projectId", 0, u64::MAX as i128) { Some(t) => t as u64, None => return None };
        let pronouns = match j.get_optional_text("pronouns") { Some(t) => t, None => return None };
        let url = match j.get_optional_text("url") { Some(t) => t, None => return None };
        let flags = match j.take("flags") { Some(f) => f, None => return None };
        Some(Project {
            avatar_preview_url,
            avatar_shape,
            avatar_url,
            headline,
            description,
            display_name,
            flags,
            handle,
            header_preview_url,
            header_url,
            privacy,
            project_id,
            pronouns,
            url,
        })
    }
}

impl ErrorData {
    /// Reads the detail of a failure from its JSON object.
    pub fn from_json(j: &Json) -> (r: Option<ErrorData>)
        ensures
            r is Some <==> error_data_readable(*j),
            r matches Some(e) ==> error_data_read(*j, e),
    {
        let code = match j.get_text("code") { Some(t) => t, None => return None };
        let http_status = match j.get_int_in("httpStatus", 0, u16::MAX as i128) { Some(t) => t as u16, None => return None };
        let path = match j.get_text("path") { Some(t) => t, None => return None };
        let stack = match j.get_text("stack") { Some(t) => t, None => return None };
        Some(ErrorData { code, http_status, path, stack })
    }
}

impl CohostError {
    /// Reads a failure of the batched query protocol from its JSON object.
    pub fn from_json(j: &Json) -> (r: Option<CohostError>)
        ensures
            r is Some <==> cohost_error_readable(*j),
            r matches Some(e) ==> cohost_error_read(*j, e),
    {
        let code = match j.get_int_in("code", i64::MIN as i128, i64::MAX as i128) { Some(t) => t as i64, None => return None };
        let data = match j.get("data") {
            Some(d) => match ErrorData::from_json(d) { Some(e) => e, None => return None },
            None => return None,
        };
        let message = match j.get_text("message") { Some(t) => t, None => return None };
        Some(CohostError { code, data, message })
    }
}

/// How a failure of the batched query protocol reads in a log.
pub open spec fn cohost_error_text(e: CohostError) -> Seq<char> {
    "Cohost HTTP error "@ + decimal_digits(e.data.http_status as nat) + ", error code "@ + e.data.code@
        + " ("@ + signed_decimal_digits(e.code as int) + "), request type "@ + e.data.path@
        + ", message \""@ + e.message@ + "\""@
}

impl CohostError {
    /// A one-line description of the failure, for logs.
    pub fn describe(&self) -> (r: String)
        ensures
            r@ == cohost_error_text(*self),
    {
        let mut r = String::from_str("Cohost HTTP error ");
        let status = decimal_string(self.data.http_status as u64);
        r.append(status.as_str());
        r.append(", error code ");
        r.append(self.data.code.as_str());
        r.append(" (");
        let code = signed_decimal_string(self.code);
        r.append(code.as_str());
        r.append("), request type ");
        r.append(self.data.path.as_str());
        r.append(", message \"");
        r.append(self.message.as_str());
        r.append("\"");
        r
    }
}

impl CanAccessPermissions {
    /// Reads the permissions of a page from their JSON object.
    pub fn from_json(j: &Json) -> (r: Option<CanAccessPermissions>)
        ensures
            r is Some <==> permissions_readable(*j),
            r matches Some(p) ==> permissions_read(*j, p),
    {
        let can_read = match access_member(j, "canRead") { Some(t) => t, None => return None };
        let can_interact = match access_member(j, "canInteract") { Some(t) => t, None => return None };
        let can_share = match access_member(j, "canShare") { Some(t) => t, None => return None };
        let can_edit = match access_member(j, "canEdit") { Some(t) => t, None => return None };
        Some(CanAccessPermissions { can_read, can_interact, can_share, can_edit })
    }
}

impl CohostLoaderError {
    /// Reads a loader error from its JSON object.
    pub fn from_json(j: &Json) -> (r: Option<CohostLoaderError>)
        ensures
            r is Some <==> loader_error_readable(*j),
            r matches Some(e) ==> loader_error_read(*j, e),
    {
        let message = match j.get_text("message") { Some(t) => t, None => return None };
        let error_code = match j.get_text("errorCode") { Some(t) => t, None => return None };
        Some(CohostLoaderError { message, error_code })
    }
}

impl ProjectPageView {
    /// Reads the view of a project's page from its JSON object.
    pub fn from_json(j: Json) -> (r: Option<ProjectPageView>)
        ensures
            r is Some <==> page_view_readable(j),
            r matches Some(v) ==> page_view_read(j, v),
    {
        let mut j = j;
        let page_handle = match j.get_text("pageHandle") { Some(t) => t, None => return None };
        let can_access_permissions = match j.get("canAccessPermissions") {
            Some(c) => match CanAccessPermissions::from_json(c) { Some(p) => p, None => return None },
            None => return None,
        };
        let project = match j.take("project") {
            Some(p) => match Project::from_json(p) { Some(p) => p, None => return None },
            None => return None,
        };
        Some(ProjectPageView { project, page_handle, can_access_permissions })
    }
}

impl ProjectPageViewLoaderState {
    /// Reads a loader state: an object whose one member names the variant.
    pub fn from_json(j: Json) -> (r: Option<ProjectPageViewLoaderState>)
        ensures
            r is Some <==> loader_state_readable(j),
            r matches Some(s) ==> loader_state_read(j, s),
    {
        proof {
            reveal_strlit("project-page-view");
            reveal_strlit("error");
            assert("project-page-view"@.len() != "error"@.len());
        }
        match j {
            Json::Object(members) => {
                let mut members = members;
                if members.len() != 1 {
                    return None;
                }
                let (tag, value) = members.remove(0);
                if same_text(tag.as_str(), "project-page-view") {
                    match ProjectPageView::from_json(value) {
                        Some(v) => Some(ProjectPageViewLoaderState::ProjectPageView(v)),
                        None => None,
                    }
                } else if same_text(tag.as_str(), "error") {
                    match CohostLoaderError::from_json(&value) {
                        Some(e) => Some(ProjectPageViewLoaderState::Error(e)),
                        None => None,
                    }
                } else {
                    None
                }
            },
            _ => None,
        }
    }

    /// The page view, or the error the page reported.
    pub fn into_result(self) -> (r: Result<ProjectPageView, CohostLoaderError>)
        ensures
            match self {
                ProjectPageViewLoaderState::ProjectPageView(v) => r == Ok::<ProjectPageView, CohostLoaderError>(v),
                ProjectPageViewLoaderState::Error(e) => r == Err::<ProjectPageView, CohostLoaderError>(e),
            },
    {
        match self {
            ProjectPageViewLoaderState::ProjectPageView(v) => Ok(v),
            ProjectPageViewLoaderState::Error(e) => Err(e),
        }
    }
}

} // verus!

//! ActivityStreams types, and the actor document of an upstream project.
//!
//! Documents are meant to be written in compacted form, with the context
//! `["https://w3.org/ns/activitystreams", "https://w3id.org/security/v1"]`.

use vstd::prelude::*;
use crate::codec::{json_quote, json_string_literal};
use crate::document::{
    MemberView, bool_text, json_bool, member_names, members_view, object_text, optional_text_member,
    push_member, push_optional_text, string_array_text, texts_view, write_object, write_string_array,
};
use crate::error::{ErrorWithStatus, ResolutionFailure, ResponseError};
use crate::json::opt_view;
use crate::types::{Privacy, Project};

verus! {

broadcast use vstd::string::group_string_axioms;

/// The kinds of actor.
#[derive(Debug, Clone, Copy, PartialEq, Eq, Structural)]
pub enum ActorType {
    Application,
    Group,
    Organization,
    Person,
    Service,
}

/// Endpoints an actor may offer; each is left out of the document when absent.
#[derive(Debug, Clone)]
pub struct Endpoints {
    pub proxy_url: Option<String>,
    pub oauth_authorization_endpoint: Option<String>,
    pub provide_client_key: Option<String>,
    pub sign_client_key: Option<String>,
    /// A single inbox shared by many users, to reduce the number of requests
    /// when sending to followers.
    pub shared_inbox: Option<String>,
}

/// The public key of an actor.
#[derive(Debug, Clone)]
pub struct PublicKey {
    pub id: String,
    pub owner: String,
    pub public_key_pem: String,
}

/// A moment in UTC, as seconds and nanoseconds since the Unix epoch.
#[derive(Debug, Clone, Copy, PartialEq, Eq, Structural)]
pub struct Timestamp {
    pub seconds: i64,
    pub nanoseconds: u32,
}

/// An ActivityPub actor document.
#[derive(Debug, Clone)]
pub struct ActorPage {
    /// The JSON-LD context.
    pub context: Vec<String>,
    pub id: String,
    pub actor_type: ActorType,
    pub following: String,
    pub followers: String,
    pub inbox: String,
    pub outbox: String,
    pub liked: Option<String>,
    pub featured: Option<String>,
    pub featured_tags: Option<String>,
    pub preferred_username: String,
    pub name: String,
    pub summary: String,
    pub url: Option<String>,
    pub manually_approves_followers: bool,
    pub discoverable: bool,
    pub published: Option<Timestamp>,
    pub devices: Option<String>,
    pub tag: Vec<String>,
    pub attachment: Vec<String>,
    pub endpoints: Endpoints,
}

impl Endpoints {
    /// Whether no endpoint is given.
    pub open spec fn empty(&self) -> bool {
        &&& self.proxy_url is None
        &&& self.oauth_authorization_endpoint is None
        &&& self.provide_client_key is None
        &&& self.sign_client_key is None
        &&& self.shared_inbox is None
    }

    /// No endpoints at all.
    pub fn none() -> (r: Endpoints)
        ensures
            r.empty(),
    {
        Endpoints {
            proxy_url: None,
            oauth_authorization_endpoint: None,
            provide_client_key: None,
            sign_client_key: None,
            shared_inbox: None,
        }
    }

    /// Whether no endpoint is given, in which case the document leaves the
    /// `endpoints` member out.
    pub fn is_empty(&self) -> (r: bool)
        ensures
            r == self.empty(),
    {
        self.proxy_url.is_none() && self.oauth_authorization_endpoint.is_none()
            && self.provide_client_key.is_none() && self.sign_client_key.is_none()
            && self.shared_inbox.is_none()
    }
}

/// The JSON-LD context of every actor document.
pub open spec fn actor_context() -> Seq<Seq<char>> {
    seq!["https://w3.org/ns/activitystreams"@, "https://w3id.org/security/v1"@]
}

/// The JSON-LD context of every actor document: ActivityStreams and the
/// security vocabulary.
pub fn default_context() -> (r: Vec<String>)
    ensures
        r@.map_values(|s: String| s@) == actor_context(),
{
    let mut r: Vec<String> = Vec::new();
    r.push("https://w3.org/ns/activitystreams".to_string());
    r.push("https://w3id.org/security/v1".to_string());
    assert(r@.map_values(|s: String| s@) =~= actor_context());
    r
}

/// The URL of the actor `handle` served from `domain`, followed by `suffix`.
pub open spec fn actor_url(domain: Seq<char>, handle: Seq<char>, suffix: Seq<char>) -> Seq<char> {
    "https://"@ + domain + "/users/"@ + handle + suffix
}

fn actor_url_of(domain: &str, handle: &str, suffix: &str) -> (r: String)
    ensures
        r@ == actor_url(domain@, handle@, suffix@),
{
    let mut r = String::from_str("https://");
    r.append(domain);
    r.append("/users/");
    r.append(handle);
    r.append(suffix);
    r
}

/// Whether `a` is the actor document of `project` served from `domain`.
pub open spec fn is_actor_of(a: ActorPage, domain: Seq<char>, project: Project) -> bool {
    let h = project.handle@;
    &&& a.context@.map_values(|s: String| s@) == actor_context()
    &&& a.id@ == actor_url(domain, h, Seq::empty())
    &&& a.actor_type == ActorType::Person
    &&& a.following@ == actor_url(domain, h, "/following"@)
    &&& a.followers@ == actor_url(domain, h, "/followers"@)
    &&& a.inbox@ == actor_url(domain, h, "/inbox"@)
    &&& a.outbox@ == actor_url(domain, h, "/outbox"@)
    &&& a.liked is None
    &&& a.featured is None
    &&& a.featured_tags is None
    &&& a.preferred_username@ == h
    &&& a.name@ == project.display_name@
    &&& a.summary@ == project.headline@
    &&& a.url is None
    &&& a.manually_approves_followers == (project.privacy == Privacy::Private)
    &&& a.discoverable
    &&& a.published is None
    &&& a.devices is None
    &&& a.tag@.len() == 0
    &&& a.attachment@.len() == 0
    &&& a.endpoints.empty()
}

impl ActorPage {
    /// The actor document of `project`, served from `domain`. Members with
    /// no upstream counterpart are left empty, so the document omits them.
    pub fn with_project(domain: &str, project: &Project) -> (r: ActorPage)
        ensures
            is_actor_of(r, domain@, *project),
            r.preferred_username@ == project.handle@,
            r.manually_approves_followers <==> project.privacy == Privacy::Private,
            r.endpoints.empty(),
    {
        let handle = project.handle.as_str();
        proof {
            reveal_strlit("");
        }
        ActorPage {
            context: default_context(),
            id: actor_url_of(domain, handle, ""),
            actor_type: ActorType::Person,
            following: actor_url_of(domain, handle, "/following"),
            followers: actor_url_of(domain, handle, "/followers"),
            inbox: actor_url_of(domain, handle, "/inbox"),
            outbox: actor_url_of(domain, handle, "/outbox"),
            liked: None,
            featured: None,
            featured_tags: None,
            preferred_username: project.handle.clone(),
            name: project.display_name.clone(),
            summary: project.headline.clone(),
            url: None,
            manually_approves_followers: project.privacy == Privacy::Private,
            discoverable: true,
            published: None,
            devices: None,
            tag: Vec::new(),
            attachment: Vec::new(),
            endpoints: Endpoints::none(),
        }
    }
}

/// The RFC 3339 text, in UTC with a `Z`, of the moment `seconds` and
/// `nanoseconds` after the Unix epoch; `None` when there is no such moment.
pub uninterp spec fn utc_rfc3339(seconds: int, nanoseconds: int) -> Option<Seq<char>>;

/// Relies on chrono: `DateTime::<Utc>::from_timestamp` gives the moment, or
/// `None` when the seconds are out of range or the nanoseconds invalid, and
/// `to_rfc3339_opts(SecondsFormat::AutoSi, true)` writes it, as chrono's
/// serde support does. The outcome depends on the two numbers alone.
#[verifier::external_body]
fn rfc3339_text(seconds: i64, nanoseconds: u32) -> (r: Option<String>)
    ensures
        opt_view(r) == utc_rfc3339(seconds as int, nanoseconds as int),
{
    chrono::DateTime::<chrono::Utc>::from_timestamp(seconds, nanoseconds)
        .map(|t| t.to_rfc3339_opts(chrono::SecondsFormat::AutoSi, true))
}

/// The name of an actor type in a document.
pub open spec fn actor_type_name(t: ActorType) -> Seq<char> {
    match t {
        ActorType::Application => "Application"@,
        ActorType::Group => "Group"@,
        ActorType::Organization => "Organization"@,
        ActorType::Person => "Person"@,
        ActorType::Service => "Service"@,
    }
}

fn actor_type_text(t: ActorType) -> (r: String)
    ensures
        r@ == json_string_literal(actor_type_name(t)),
{
    let name = match t {
        ActorType::Application => "Application",
        ActorType::Group => "Group",
        ActorType::Organization => "Organization",
        ActorType::Person => "Person",
        ActorType::Service => "Service",
    };
    json_quote(name)
}

/// The members of an endpoints object as it is written.
pub open spec fn endpoints_members(e: Endpoints) -> Seq<MemberView> {
    optional_text_member("proxyUrl"@, opt_view(e.proxy_url))
        + optional_text_member("oauthAuthorizationEndpoint"@, opt_view(e.oauth_authorization_endpoint))
        + optional_text_member("provideClientKey"@, opt_view(e.provide_client_key))
        + optional_text_member("signClientKey"@, opt_view(e.sign_client_key))
        + optional_text_member("sharedInbox"@, opt_view(e.shared_inbox))
}

/// The `published` member, none when there is no date; `None` when the
/// date cannot be written.
pub open spec fn published_members(p: Option<Timestamp>) -> Option<Seq<MemberView>> {
    match p {
        None => Some(Seq::empty()),
        Some(t) => match utc_rfc3339(t.seconds as int, t.nanoseconds as int) {
            Some(text) => Some(seq![("published"@, json_string_literal(text))]),
            None => None,
        },
    }
}

/// A member holding an array of strings, left out when the array is empty.
pub open spec fn nonempty_array_member(name: Seq<char>, items: Seq<String>) -> Seq<MemberView> {
    if items.len() == 0 {
        Seq::empty()
    } else {
        seq![(name, string_array_text(texts_view(items)))]
    }
}

/// The leading members of an actor document: context, identity, type and
/// collections.
pub open spec fn actor_head(a: ActorPage) -> Seq<MemberView> {
    seq![
        ("@context"@, string_array_text(texts_view(a.context@))),
        ("id"@, json_string_literal(a.id@)),
        ("type"@, json_string_literal(actor_type_name(a.actor_type))),
        ("following"@, json_string_literal(a.following@)),
        ("followers"@, json_string_literal(a.followers@)),
        ("inbox"@, json_string_literal(a.inbox@)),
        ("outbox"@, json_string_literal(a.outbox@)),
    ]
}

/// The naming members of an actor document.
pub open spec fn actor_names(a: ActorPage) -> Seq<MemberView> {
    seq![
        ("preferredUsername"@, json_string_literal(a.preferred_username@)),
        ("name"@, json_string_literal(a.name@)),
        ("summary"@, json_string_literal(a.summary@)),
    ]
}

/// The flag members of an actor document.
pub open spec fn actor_flags(a: ActorPage) -> Seq<MemberView> {
    seq![
        ("as:manuallyApprovesFollowers"@, json_bool(a.manually_approves_followers)),
        ("discoverable"@, json_bool(a.discoverable)),
    ]
}

/// The `endpoints` member, left out when no endpoint is given.
pub open spec fn endpoints_member(e: Endpoints) -> Seq<MemberView> {
    if e.empty() {
        Seq::empty()
    } else {
        seq![("endpoints"@, object_text(endpoints_members(e)))]
    }
}

/// The members of an actor document as it is written, given its
/// `published` members: absent options, empty lists and empty endpoints
/// are left out.
pub open spec fn actor_members(a: ActorPage, published: Seq<MemberView>) -> Seq<MemberView> {
    actor_head(a)
        + optional_text_member("liked"@, opt_view(a.liked))
        + optional_text_member("featured"@, opt_view(a.featured))
        + optional_text_member("featuredTags"@, opt_view(a.featured_tags))
        + actor_names(a)
        + optional_text_member("url"@, opt_view(a.url))
        + actor_flags(a)
        + published
        + optional_text_member("devices"@, opt_view(a.devices))
        + nonempty_array_member("tag"@, a.tag@)
        + nonempty_array_member("attachment"@, a.attachment@)
        + endpoints_member(a.endpoints)
}

impl Endpoints {
    /// The JSON text of these endpoints.
    pub fn to_json(&self) -> (r: String)
        ensures
            r@ == object_text(endpoints_members(*self)),
    {
        let mut members: Vec<(String, String)> = Vec::new();
        push_optional_text(&mut members, "proxyUrl", &self.proxy_url);
        push_optional_text(&mut members, "oauthAuthorizationEndpoint", &self.oauth_authorization_endpoint);
        push_optional_text(&mut members, "provideClientKey", &self.provide_client_key);
        push_optional_text(&mut members, "signClientKey", &self.sign_client_key);
        push_optional_text(&mut members, "sharedInbox", &self.shared_inbox);
        assert(members_view(members@) =~= endpoints_members(*self));
        write_object(&members)
    }
}

fn push_nonempty_array(members: &mut Vec<(String, String)>, name: &str, items: &Vec<String>)
    ensures
        members_view(final(members)@) == members_view(old(members)@) + nonempty_array_member(name@, items@),
{
    if items.len() == 0 {
        assert(members_view(members@) =~= members_view(old(members)@) + nonempty_array_member(name@, items@));
    } else {
        push_member(members, name, write_string_array(items));
        assert(members_view(members@) =~= members_view(old(members)@) + nonempty_array_member(name@, items@));
    }
}

impl ActorPage {
    fn push_head(&self, members: &mut Vec<(String, String)>)
        ensures
            members_view(final(members)@) == members_view(old(members)@) + actor_head(*self),
    {
        let ghost start = members_view(members@);
        push_member(members, "@context", write_string_array(&self.context));
        push_member(members, "id", json_quote(self.id.as_str()));
        push_member(members, "type", actor_type_text(self.actor_type));
        push_member(members, "following", json_quote(self.following.as_str()));
        push_member(members, "followers", json_quote(self.followers.as_str()));
        push_member(members, "inbox", json_quote(self.inbox.as_str()));
        push_member(members, "outbox", json_quote(self.outbox.as_str()));
        assert(members_view(members@) =~= start + actor_head(*self));
    }

    fn push_names(&self, members: &mut Vec<(String, String)>)
        ensures
            members_view(final(members)@) == members_view(old(members)@) + actor_names(*self),
    {
        let ghost start = members_view(members@);
        push_member(members, "preferredUsername", json_quote(self.preferred_username.as_str()));
        push_member(members, "name", json_quote(self.name.as_str()));
        push_member(members, "summary", json_quote(self.summary.as_str()));
        assert(members_view(members@) =~= start + actor_names(*self));
    }

    fn push_flags(&self, members: &mut Vec<(String, String)>)
        ensures
            members_view(final(members)@) == members_view(old(members)@) + actor_flags(*self),
    {
        let ghost start = members_view(members@);
        push_member(members, "as:manuallyApprovesFollowers", bool_text(self.manually_approves_followers));
        push_member(members, "discoverable", bool_text(self.discoverable));
        assert(members_view(members@) =~= start + actor_flags(*self));
    }

    fn push_published(&self, members: &mut Vec<(String, String)>) -> (ok: bool)
        ensures
            match published_members(self.published) {
                Some(p) => ok && members_view(final(members)@) == members_view(old(members)@) + p,
                None => !ok,
            },
    {
        match self.published {
            Some(t) => match rfc3339_text(t.seconds, t.nanoseconds) {
                Some(text) => {
                    push_member(members, "published", json_quote(text.as_str()));
                    true
                },
                None => false,
            },
            None => {
                assert(members_view(members@) =~= members_view(old(members)@) + Seq::<MemberView>::empty());
                true
            },
        }
    }

    fn push_endpoints(&self, members: &mut Vec<(String, String)>)
        ensures
            members_view(final(members)@) == members_view(old(members)@) + endpoints_member(self.endpoints),
    {
        if self.endpoints.is_empty() {
            assert(members_view(members@) =~= members_view(old(members)@) + endpoints_member(self.endpoints));
        } else {
            push_member(members, "endpoints", self.endpoints.to_json());
        }
    }

    /// The JSON text of this document, with its JSON-LD context first.
    /// `None` when the `published` date cannot be written.
    pub fn to_json(&self) -> (r: Option<String>)
        ensures
            match published_members(self.published) {
                Some(p) => r matches Some(t) && t@ == object_text(actor_members(*self, p)),
                None => r is None,
            },
    {
        let mut members: Vec<(String, String)> = Vec::new();
        assert(members_view(members@) =~= Seq::<MemberView>::empty());
        self.push_head(&mut members);
        assert(members_view(members@) =~= actor_head(*self));
        push_optional_text(&mut members, "liked", &self.liked);
        push_optional_text(&mut members, "featured", &self.featured);
        push_optional_text(&mut members, "featuredTags", &self.featured_tags);
        self.push_names(&mut members);
        push_optional_text(&mut members, "url", &self.url);
        self.push_flags(&mut members);
        if !self.push_published(&mut members) {
            return None;
        }
        push_optional_text(&mut members, "devices", &self.devices);
        push_nonempty_array(&mut members, "tag", &self.tag);
        push_nonempty_array(&mut members, "attachment", &self.attachment);
        self.push_endpoints(&mut members);
        Some(write_object(&members))
    }
}

/// The actor document of a project never has a `publicKey`, `icon` or
/// `endpoints` member: the project carries nothing for them.
pub proof fn lemma_actor_omits_unavailable(a: ActorPage, domain: Seq<char>, project: Project)
    requires
        is_actor_of(a, domain, project),
    ensures
        published_members(a.published) == Some(Seq::<MemberView>::empty()),
        !member_names(actor_members(a, Seq::empty())).contains("publicKey"@),
        !member_names(actor_members(a, Seq::empty())).contains("icon"@),
        !member_names(actor_members(a, Seq::empty())).contains("endpoints"@),
{
    let names = seq![
        "@context"@, "id"@, "type"@, "following"@, "followers"@, "inbox"@, "outbox"@,
        "preferredUsername"@, "name"@, "summary"@, "as:manuallyApprovesFollowers"@, "discoverable"@,
    ];
    assert(member_names(actor_members(a, Seq::empty())) =~= names);
    reveal_strlit("@context");
    reveal_strlit("id");
    reveal_strlit("type");
    reveal_strlit("following");
    reveal_strlit("followers");
    reveal_strlit("inbox");
    reveal_strlit("outbox");
    reveal_strlit("preferredUsername");
    reveal_strlit("name");
    reveal_strlit("summary");
    reveal_strlit("as:manuallyApprovesFollowers");
    reveal_strlit("discoverable");
    reveal_strlit("publicKey");
    reveal_strlit("icon");
    reveal_strlit("endpoints");
    assert forall|i: int| 0 <= i < names.len() implies names[i] != "publicKey"@ && names[i] != "icon"@
        && names[i] != "endpoints"@ by {
        assert(names[i].len() != "publicKey"@.len() || names[i][0] != "publicKey"@[0]);
        assert(names[i].len() != "icon"@.len() || names[i][0] != "icon"@[0]);
        assert(names[i].len() != "endpoints"@.len() || names[i][0] != "endpoints"@[0]);
    }
}

/// The answer to an actor request once resolution is done: the actor
/// document when the account resolved, a 404 when there is no such account,
/// and an internal error for any other failure.
pub fn actor_response(domain: &str, resolution: Result<Project, ResolutionFailure>) -> (r: Result<ActorPage, ResponseError>)
    ensures
        match resolution {
            Ok(p) => r matches Ok(a) && is_actor_of(a, domain@, p),
            Err(ResolutionFailure::NotFound) => r matches Err(ResponseError::WithStatus(e))
                && e.status == 404 && e.message@ == "no such user"@,
            Err(ResolutionFailure::UpstreamUnavailable) => r matches Err(ResponseError::Internal(m))
                && m@ == "upstream unavailable"@,
            Err(ResolutionFailure::ProtocolViolation) => r matches Err(ResponseError::Internal(m))
                && m@ == "upstream answered in an unexpected shape"@,
        },
{
    match resolution {
        Ok(project) => Ok(ActorPage::with_project(domain, &project)),
        Err(ResolutionFailure::NotFound) => Err(ResponseError::WithStatus(
            ErrorWithStatus { status: 404, message: "no such user".to_string() },
        )),
        Err(ResolutionFailure::UpstreamUnavailable) => Err(ResponseError::Internal("upstream unavailable".to_string())),
        Err(ResolutionFailure::ProtocolViolation) => Err(ResponseError::Internal(
            "upstream answered in an unexpected shape".to_string(),
        )),
    }
}

} // verus!

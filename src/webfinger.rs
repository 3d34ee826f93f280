//! WebFinger: the discovery document of an account, the account a query
//! asks about, and the host metadata that points clients here.

use vstd::prelude::*;
use crate::error::{ErrorWithStatus, ResolutionFailure};
use crate::codec::{json_quote, json_string_literal};
use crate::document::{
    MemberView, members_view, array_text, object_text, optional_text_member, push_member, push_optional_text,
    string_array_text, texts_view, write_array, write_object, write_string_array,
};
use crate::json::opt_view;
use crate::text::{same_text, split_once, split_once_spec};
use crate::types::Project;

verus! {

broadcast use vstd::string::group_string_axioms;

/// A WebFinger response.
#[derive(Debug, Clone)]
pub struct WebFinger {
    /// The `acct:` URI of the subject.
    pub subject: String,
    /// Other names of the subject, here HTTPS links.
    pub aliases: Vec<String>,
    /// Links for specific purposes.
    pub links: Vec<Link>,
}

/// One link of a WebFinger response.
#[derive(Debug, Clone)]
pub struct Link {
    /// What the link refers to (for example `self`).
    pub rel: String,
    /// Media type of the resource.
    pub mime_type: Option<String>,
    /// The link itself.
    pub href: Option<String>,
    /// A URL template, which may stand instead of `href`.
    pub template: Option<String>,
}

/// The query of a WebFinger request.
#[derive(Debug, Clone)]
pub struct WebFingerQuery {
    pub resource: String,
}

/// The contents of a link.
pub struct LinkView {
    pub rel: Seq<char>,
    pub mime_type: Option<Seq<char>>,
    pub href: Option<Seq<char>>,
    pub template: Option<Seq<char>>,
}

/// The contents of a WebFinger response.
pub struct WebFingerView {
    pub subject: Seq<char>,
    pub aliases: Seq<Seq<char>>,
    pub links: Seq<LinkView>,
}

impl View for Link {
    type V = LinkView;

    open spec fn view(&self) -> LinkView {
        LinkView {
            rel: self.rel@,
            mime_type: opt_view(self.mime_type),
            href: opt_view(self.href),
            template: opt_view(self.template),
        }
    }
}

impl View for WebFinger {
    type V = WebFingerView;

    open spec fn view(&self) -> WebFingerView {
        WebFingerView {
            subject: self.subject@,
            aliases: self.aliases@.map_values(|s: String| s@),
            links: self.links@.map_values(|l: Link| l@),
        }
    }
}

/// The URL of the actor document this server serves for `handle`.
pub open spec fn local_actor_url(handle: Seq<char>, domain: Seq<char>) -> Seq<char> {
    "https://"@ + domain + "/users/"@ + handle
}

/// The URL of the account's profile page on the upstream platform.
pub open spec fn upstream_profile_url(handle: Seq<char>) -> Seq<char> {
    "https://cohost.org/"@ + handle
}

/// The discovery document of `handle` served from `domain`.
pub open spec fn discovery_document(handle: Seq<char>, domain: Seq<char>) -> WebFingerView {
    WebFingerView {
        subject: "acct:"@ + handle + "@"@ + domain,
        aliases: seq![local_actor_url(handle, domain), upstream_profile_url(handle)],
        links: seq![
            LinkView {
                rel: "http://webfinger.net/rel/profile-page"@,
                mime_type: Some("text/html"@),
                href: Some(upstream_profile_url(handle)),
                template: None,
            },
            LinkView {
                rel: "self"@,
                mime_type: Some("application/activity+json"@),
                href: Some(local_actor_url(handle, domain)),
                template: None,
            },
        ],
    }
}

/// The discovery document has two aliases, the local actor first, and two
/// links, the profile page first and the actor itself second.
pub proof fn lemma_discovery_document_shape(handle: Seq<char>, domain: Seq<char>)
    ensures
        discovery_document(handle, domain).aliases.len() == 2,
        discovery_document(handle, domain).aliases[0] == local_actor_url(handle, domain),
        discovery_document(handle, domain).aliases[1] == upstream_profile_url(handle),
        discovery_document(handle, domain).links.len() == 2,
        discovery_document(handle, domain).links[0].rel == "http://webfinger.net/rel/profile-page"@,
        discovery_document(handle, domain).links[1].rel == "self"@,
{
}

fn concat3(a: &str, b: &str, c: &str) -> (r: String)
    ensures
        r@ == a@ + b@ + c@,
{
    let mut r = a.to_string();
    r.append(b);
    r.append(c);
    r
}

impl WebFinger {
    /// The discovery document of the upstream account `cohost_handle`, as
    /// served from `local_domain`.
    pub fn with_cohost_handle(cohost_handle: &str, local_domain: &str) -> (r: WebFinger)
        ensures
            r@ == discovery_document(cohost_handle@, local_domain@),
    {
        let mut subject = concat3("acct:", cohost_handle, "@");
        subject.append(local_domain);
        let mut local = concat3("https://", local_domain, "/users/");
        local.append(cohost_handle);
        let upstream = concat3("https://cohost.org/", cohost_handle, "");
        let profile_page = Link {
            rel: "http://webfinger.net/rel/profile-page".to_string(),
            mime_type: Some("text/html".to_string()),
            href: Some(upstream.clone()),
            template: None,
        };
        let this = Link {
            rel: "self".to_string(),
            mime_type: Some("application/activity+json".to_string()),
            href: Some(local.clone()),
            template: None,
        };
        let mut aliases: Vec<String> = Vec::new();
        aliases.push(local);
        aliases.push(upstream);
        let mut links: Vec<Link> = Vec::new();
        links.push(profile_page);
        links.push(this);
        proof {
            reveal_strlit("");
        }
        let r = WebFinger { subject, aliases, links };
        assert(r@.aliases =~= discovery_document(cohost_handle@, local_domain@).aliases);
        assert(r@.links =~= discovery_document(cohost_handle@, local_domain@).links);
        r
    }
}

/// The members of a link as it is written; absent parts are left out.
pub open spec fn link_members(l: LinkView) -> Seq<MemberView> {
    seq![("rel"@, json_string_literal(l.rel))]
        + optional_text_member("type"@, l.mime_type)
        + optional_text_member("href"@, l.href)
        + optional_text_member("template"@, l.template)
}

/// The JSON text of a link.
pub open spec fn link_text(l: LinkView) -> Seq<char> {
    object_text(link_members(l))
}

/// The members of a WebFinger response as it is written.
pub open spec fn webfinger_members(w: WebFingerView) -> Seq<MemberView> {
    seq![
        ("subject"@, json_string_literal(w.subject)),
        ("aliases"@, string_array_text(w.aliases)),
        ("links"@, array_text(w.links.map_values(|l: LinkView| link_text(l)))),
    ]
}

/// The JSON text of a WebFinger response.
pub open spec fn webfinger_text(w: WebFingerView) -> Seq<char> {
    object_text(webfinger_members(w))
}

/// Building the discovery document twice for the same handle and domain
/// gives the same document and the same bytes: both depend on the handle
/// and the domain alone.
pub proof fn lemma_discovery_document_deterministic(a: WebFinger, b: WebFinger, handle: Seq<char>, domain: Seq<char>)
    requires
        a@ == discovery_document(handle, domain),
        b@ == discovery_document(handle, domain),
    ensures
        a@ == b@,
        webfinger_text(a@) == webfinger_text(b@),
{
}

impl Link {
    /// The JSON text of this link.
    pub fn to_json(&self) -> (r: String)
        ensures
            r@ == link_text(self@),
    {
        let mut members: Vec<(String, String)> = Vec::new();
        push_member(&mut members, "rel", json_quote(self.rel.as_str()));
        push_optional_text(&mut members, "type", &self.mime_type);
        push_optional_text(&mut members, "href", &self.href);
        push_optional_text(&mut members, "template", &self.template);
        assert(members_view(members@) =~= link_members(self@));
        write_object(&members)
    }
}

impl WebFinger {
    /// The JSON text of this response.
    pub fn to_json(&self) -> (r: String)
        ensures
            r@ == webfinger_text(self@),
    {
        let ghost links = self.links@.map_values(|l: Link| l@);
        let mut link_texts: Vec<String> = Vec::new();
        let mut i: usize = 0;
        while i < self.links.len()
            invariant
                i <= self.links.len(),
                links == self.links@.map_values(|l: Link| l@),
                link_texts@.len() == i,
                forall|j: int| 0 <= j < i ==> #[trigger] link_texts@[j]@ == link_text(links[j]),
            decreases self.links.len() - i,
        {
            link_texts.push(self.links[i].to_json());
            i = i + 1;
        }
        assert(texts_view(link_texts@) =~= links.map_values(|l: LinkView| link_text(l)));
        let mut members: Vec<(String, String)> = Vec::new();
        push_member(&mut members, "subject", json_quote(self.subject.as_str()));
        push_member(&mut members, "aliases", write_string_array(&self.aliases));
        push_member(&mut members, "links", write_array(&link_texts));
        assert(members_view(members@) =~= webfinger_members(self@));
        write_object(&members)
    }
}

/// Why a WebFinger query was refused before any upstream request.
#[derive(Debug, Clone, Copy, PartialEq, Eq, Structural)]
pub enum ResourceError {
    /// The query has no `resource` parameter.
    Missing,
    /// The resource has no scheme.
    NoScheme,
    /// The resource is not an `acct:` URI.
    IncorrectScheme,
    /// The account has no domain part.
    NoDomain,
    /// The account belongs to another domain than the one served here.
    IncorrectDomain,
}

/// The handle that a WebFinger `resource` asks about on `domain`.
pub open spec fn requested_handle_spec(resource: Option<Seq<char>>, domain: Seq<char>) -> Result<Seq<char>, ResourceError> {
    match resource {
        None => Err(ResourceError::Missing),
        Some(res) => match split_once_spec(res, ':') {
            None => Err(ResourceError::NoScheme),
            Some((scheme, account)) => if scheme != "acct"@ {
                Err(ResourceError::IncorrectScheme)
            } else {
                match split_once_spec(account, '@') {
                    None => Err(ResourceError::NoDomain),
                    Some((user, host)) => if host != domain {
                        Err(ResourceError::IncorrectDomain)
                    } else {
                        Ok(user)
                    },
                }
            },
        },
    }
}

/// The handle that a WebFinger `resource` parameter asks about, which must
/// be `acct:<handle>@<domain>` with the domain served here.
pub fn requested_handle(resource: Option<&str>, domain: &str) -> (r: Result<String, ResourceError>)
    ensures
        match requested_handle_spec(match resource { Some(s) => Some(s@), None => None }, domain@) {
            Ok(h) => r matches Ok(x) && x@ == h,
            Err(e) => r == Err::<String, ResourceError>(e),
        },
{
    let resource = match resource {
        Some(s) => s,
        None => return Err(ResourceError::Missing),
    };
    let (scheme, account) = match split_once(resource, ':') {
        Some(parts) => parts,
        None => return Err(ResourceError::NoScheme),
    };
    if !same_text(scheme.as_str(), "acct") {
        return Err(ResourceError::IncorrectScheme);
    }
    let (user, host) = match split_once(account.as_str(), '@') {
        Some(parts) => parts,
        None => return Err(ResourceError::NoDomain),
    };
    if !same_text(host.as_str(), domain) {
        return Err(ResourceError::IncorrectDomain);
    }
    Ok(user)
}

impl WebFingerQuery {
    /// The handle this query asks about on `domain`.
    pub fn handle(&self, domain: &str) -> (r: Result<String, ResourceError>)
        ensures
            match requested_handle_spec(Some(self.resource@), domain@) {
                Ok(h) => r matches Ok(x) && x@ == h,
                Err(e) => r == Err::<String, ResourceError>(e),
            },
    {
        requested_handle(Some(self.resource.as_str()), domain)
    }
}

/// The message that explains a refusal.
pub open spec fn resource_error_message(e: ResourceError) -> Seq<char> {
    match e {
        ResourceError::Missing => "no resource"@,
        ResourceError::NoScheme => "no scheme"@,
        ResourceError::IncorrectScheme => "incorrect scheme"@,
        ResourceError::NoDomain => "no domain"@,
        ResourceError::IncorrectDomain => "incorrect domain"@,
    }
}

impl ResourceError {
    /// The message that explains the refusal.
    pub fn message(&self) -> (r: String)
        ensures
            r@ == resource_error_message(*self),
    {
        match self {
            ResourceError::Missing => "no resource".to_string(),
            ResourceError::NoScheme => "no scheme".to_string(),
            ResourceError::IncorrectScheme => "incorrect scheme".to_string(),
            ResourceError::NoDomain => "no domain".to_string(),
            ResourceError::IncorrectDomain => "incorrect domain".to_string(),
        }
    }

    /// The refusal as a client error response.
    pub fn to_error(&self) -> (r: ErrorWithStatus)
        ensures
            r.status == 400,
            r.message@ == resource_error_message(*self),
    {
        ErrorWithStatus { status: 400, message: self.message() }
    }
}

/// The answer to a WebFinger request for `handle` once resolution is done:
/// the discovery document when the account resolved, a 404 otherwise,
/// whatever the reason.
pub fn webfinger_response(handle: &str, domain: &str, resolution: &Result<Project, ResolutionFailure>) -> (r: Result<WebFinger, ErrorWithStatus>)
    ensures
        resolution is Ok ==> (r matches Ok(w) && w@ == discovery_document(handle@, domain@)),
        resolution is Err ==> (r matches Err(e) && e.status == 404 && e.message@ == "no such user"@),
{
    match resolution {
        Ok(_) => Ok(WebFinger::with_cohost_handle(handle, domain)),
        Err(_) => Err(ErrorWithStatus { status: 404, message: "no such user".to_string() }),
    }
}

/// The host metadata document, whose one `lrdd` link points at this
/// server's WebFinger endpoint on `domain`.
pub fn host_meta(domain: &str) -> (r: String)
    ensures
        r@ == "<?xml version=\"1.0\" encoding=\"UTF-8\"?>\n<XRD xmlns=\"http://docs.oasis-open.org/ns/xri/xrd-1.0\">\n  <Link rel=\"lrdd\" template=\"https://"@
            + domain@ + "/.well-known/webfinger?resource={uri}\"/>\n</XRD>\n"@,
{
    concat3(
        "<?xml version=\"1.0\" encoding=\"UTF-8\"?>\n<XRD xmlns=\"http://docs.oasis-open.org/ns/xri/xrd-1.0\">\n  <Link rel=\"lrdd\" template=\"https://",
        domain,
        "/.well-known/webfinger?resource={uri}\"/>\n</XRD>\n",
    )
}

} // verus!

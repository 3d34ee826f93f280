use cobridge::activitystreams::{default_context, ActorPage, ActorType, Endpoints, Timestamp};
use cobridge::json::Json;
use cobridge::types::{AvatarShape, Privacy, Project};
use cobridge::webfinger::{host_meta, requested_handle, ResourceError, WebFinger, WebFingerQuery};

fn project(privacy: Privacy) -> Project {
    Project {
        avatar_preview_url: "https://cdn.example/p.png".to_string(),
        avatar_shape: AvatarShape::Squircle,
        avatar_url: "https://cdn.example/a.png".to_string(),
        headline: "the headline".to_string(),
        description: "longer text".to_string(),
        display_name: "Display Name".to_string(),
        flags: Json::Null,
        handle: "handle".to_string(),
        header_preview_url: None,
        header_url: None,
        privacy,
        project_id: 9,
        pronouns: None,
        url: None,
    }
}

#[test]
fn discovery_document_fields() {
    let doc = WebFinger::with_cohost_handle("alice", "example.com");
    assert_eq!(doc.subject, "acct:alice@example.com");
    assert_eq!(
        doc.aliases,
        vec!["https://example.com/users/alice".to_string(), "https://cohost.org/alice".to_string()]
    );
    assert_eq!(doc.links.len(), 2);
    assert_eq!(doc.links[0].rel, "http://webfinger.net/rel/profile-page");
    assert_eq!(doc.links[0].mime_type.as_deref(), Some("text/html"));
    assert_eq!(doc.links[0].href.as_deref(), Some("https://cohost.org/alice"));
    assert_eq!(doc.links[0].template, None);
    assert_eq!(doc.links[1].rel, "self");
    assert_eq!(doc.links[1].mime_type.as_deref(), Some("application/activity+json"));
    assert_eq!(doc.links[1].href.as_deref(), Some("https://example.com/users/alice"));
}

#[test]
fn discovery_document_is_deterministic() {
    let a = WebFinger::with_cohost_handle("bob", "bridge.test");
    let b = WebFinger::with_cohost_handle("bob", "bridge.test");
    assert_eq!(format!("{:?}", a), format!("{:?}", b));
    assert_eq!(a.aliases.len(), 2);
    assert_eq!(b.links.len(), 2);
}

#[test]
fn actor_document_fields() {
    let actor = ActorPage::with_project("example.com", &project(Privacy::Public));
    assert_eq!(
        actor.context,
        vec!["https://w3.org/ns/activitystreams".to_string(), "https://w3id.org/security/v1".to_string()]
    );
    assert_eq!(actor.id, "https://example.com/users/handle");
    assert_eq!(actor.actor_type, ActorType::Person);
    assert_eq!(actor.following, "https://example.com/users/handle/following");
    assert_eq!(actor.followers, "https://example.com/users/handle/followers");
    assert_eq!(actor.inbox, "https://example.com/users/handle/inbox");
    assert_eq!(actor.outbox, "https://example.com/users/handle/outbox");
    assert_eq!(actor.name, "Display Name");
    assert_eq!(actor.summary, "the headline");
    assert!(actor.discoverable);
}

#[test]
fn preferred_username_is_the_handle() {
    let actor = ActorPage::with_project("example.com", &project(Privacy::Public));
    assert_eq!(actor.preferred_username, "handle");
    assert_ne!(actor.preferred_username, "Display Name");
}

#[test]
fn actor_omits_fields_without_upstream_data() {
    let actor = ActorPage::with_project("example.com", &project(Privacy::Private));
    assert!(actor.endpoints.is_empty());
    assert_eq!(actor.liked, None);
    assert_eq!(actor.featured, None);
    assert_eq!(actor.featured_tags, None);
    assert_eq!(actor.url, None);
    assert_eq!(actor.published, None);
    assert_eq!(actor.devices, None);
    assert!(actor.tag.is_empty());
    assert!(actor.attachment.is_empty());
}

#[test]
fn manual_approval_follows_privacy() {
    assert!(ActorPage::with_project("example.com", &project(Privacy::Private)).manually_approves_followers);
    assert!(!ActorPage::with_project("example.com", &project(Privacy::Public)).manually_approves_followers);
}

#[test]
fn endpoints_with_one_member_are_not_empty() {
    let mut e = Endpoints::none();
    assert!(e.is_empty());
    e.shared_inbox = Some("https://example.com/inbox".to_string());
    assert!(!e.is_empty());
}

#[test]
fn context_has_two_namespaces() {
    assert_eq!(default_context().len(), 2);
}

#[test]
fn resource_errors() {
    assert_eq!(requested_handle(Some("alice@example.com"), "example.com").unwrap_err(), ResourceError::NoScheme);
    assert_eq!(requested_handle(Some("mailto:alice@example.com"), "example.com").unwrap_err(), ResourceError::IncorrectScheme);
    assert_eq!(requested_handle(Some("acct:alice"), "example.com").unwrap_err(), ResourceError::NoDomain);
    assert_eq!(requested_handle(Some("acct:alice@other.org"), "example.com").unwrap_err(), ResourceError::IncorrectDomain);
    assert_eq!(ResourceError::IncorrectDomain.to_error().message, "incorrect domain");
}

#[test]
fn resource_splits_at_first_separator() {
    assert_eq!(requested_handle(Some("acct:a:b@example.com"), "example.com").unwrap(), "a:b");
    assert_eq!(requested_handle(Some("acct:a@b@example.com"), "example.com").unwrap_err(), ResourceError::IncorrectDomain);
    let q = WebFingerQuery { resource: "acct:alice@example.com".to_string() };
    assert_eq!(q.handle("example.com").unwrap(), "alice");
}

#[test]
fn host_meta_points_at_webfinger() {
    assert_eq!(
        host_meta("example.com"),
        "<?xml version=\"1.0\" encoding=\"UTF-8\"?>\n<XRD xmlns=\"http://docs.oasis-open.org/ns/xri/xrd-1.0\">\n  <Link rel=\"lrdd\" template=\"https://example.com/.well-known/webfinger?resource={uri}\"/>\n</XRD>\n"
    );
}

#[test]
fn discovery_document_text() {
    let doc = WebFinger::with_cohost_handle("alice", "example.com");
    assert_eq!(
        doc.to_json(),
        "{\"subject\":\"acct:alice@example.com\",\"aliases\":[\"https://example.com/users/alice\",\"https://cohost.org/alice\"],\"links\":[{\"rel\":\"http://webfinger.net/rel/profile-page\",\"type\":\"text/html\",\"href\":\"https://cohost.org/alice\"},{\"rel\":\"self\",\"type\":\"application/activity+json\",\"href\":\"https://example.com/users/alice\"}]}"
    );
}

#[test]
fn discovery_document_text_is_byte_identical() {
    let a = WebFinger::with_cohost_handle("b\"ob", "bridge.test").to_json();
    let b = WebFinger::with_cohost_handle("b\"ob", "bridge.test").to_json();
    assert_eq!(a.as_bytes(), b.as_bytes());
    assert!(a.contains("\"subject\":\"acct:b\\\"ob@bridge.test\""));
}

#[test]
fn actor_document_text() {
    let actor = ActorPage::with_project("example.com", &project(Privacy::Public));
    assert_eq!(
        actor.to_json().unwrap(),
        "{\"@context\":[\"https://w3.org/ns/activitystreams\",\"https://w3id.org/security/v1\"],\"id\":\"https://example.com/users/handle\",\"type\":\"Person\",\"following\":\"https://example.com/users/handle/following\",\"followers\":\"https://example.com/users/handle/followers\",\"inbox\":\"https://example.com/users/handle/inbox\",\"outbox\":\"https://example.com/users/handle/outbox\",\"preferredUsername\":\"handle\",\"name\":\"Display Name\",\"summary\":\"the headline\",\"as:manuallyApprovesFollowers\":false,\"discoverable\":true}"
    );
}

#[test]
fn actor_document_text_omits_key_icon_and_endpoints() {
    let text = ActorPage::with_project("example.com", &project(Privacy::Private)).to_json().unwrap();
    assert!(!text.contains("publicKey"));
    assert!(!text.contains("icon"));
    assert!(!text.contains("endpoints"));
    assert!(text.contains("\"as:manuallyApprovesFollowers\":true"));
}

#[test]
fn actor_document_text_with_optional_members() {
    let mut actor = ActorPage::with_project("example.com", &project(Privacy::Public));
    actor.published = Some(Timestamp { seconds: 1516991409, nanoseconds: 453_000_000 });
    actor.tag = vec!["t".to_string()];
    actor.endpoints.shared_inbox = Some("https://example.com/inbox".to_string());
    let text = actor.to_json().unwrap();
    assert!(text.ends_with(
        "\"discoverable\":true,\"published\":\"2018-01-26T18:30:09.453Z\",\"tag\":[\"t\"],\"endpoints\":{\"sharedInbox\":\"https://example.com/inbox\"}}"
    ));
}

#[test]
fn actor_document_with_unwritable_date() {
    let mut actor = ActorPage::with_project("example.com", &project(Privacy::Public));
    actor.published = Some(Timestamp { seconds: i64::MAX, nanoseconds: 0 });
    assert_eq!(actor.to_json(), None);
}

use cobridge::activitystreams::actor_response;
use cobridge::envelope::{decode_one, decode_single, CohostResponse, ProtocolError};
use cobridge::error::{ClientError, ResolutionFailure, ResponseError};
use cobridge::json::Json;
use cobridge::resolver::{resolve_from_batch, resolve_from_loader_state};
use cobridge::types::{
    AccessPermission, AvatarShape, CohostError, Privacy, Project, ProjectPageViewLoaderState,
};
use cobridge::webfinger::{requested_handle, webfinger_response, ResourceError};

fn text(s: &str) -> Json {
    Json::Str(s.to_string())
}

fn obj(members: Vec<(&str, Json)>) -> Json {
    Json::Object(members.into_iter().map(|(k, v)| (k.to_string(), v)).collect())
}

fn project_json(handle: &str, privacy: &str) -> Json {
    obj(vec![
        ("avatarPreviewURL", text("https://staging.cohostcdn.org/avatar/p.png")),
        ("avatarShape", text("circle")),
        ("avatarURL", text("https://staging.cohostcdn.org/avatar/a.png")),
        ("dek", text("hello there")),
        ("description", text("a description")),
        ("displayName", text("Alice A.")),
        ("flags", obj(vec![])),
        ("handle", text(handle)),
        ("headerPreviewURL", Json::Null),
        ("headerURL", Json::Null),
        ("privacy", text(privacy)),
        ("projectId", Json::Int(42)),
        ("pronouns", text("she/her")),
        ("url", Json::Null),
    ])
}

fn listing_batch(handles: &[&str]) -> Json {
    let posts = handles
        .iter()
        .map(|h| obj(vec![("postId", Json::Int(1)), ("postingProject", project_json(h, "public"))]))
        .collect();
    Json::Array(vec![obj(vec![(
        "result",
        obj(vec![("data", obj(vec![("posts", Json::Array(posts))]))]),
    )])])
}

fn not_found_batch() -> Json {
    Json::Array(vec![obj(vec![(
        "error",
        obj(vec![
            ("code", Json::Int(-1)),
            (
                "data",
                obj(vec![
                    ("code", text("NOT_FOUND")),
                    ("httpStatus", Json::Int(404)),
                    ("path", text("posts.profilePosts")),
                    ("stack", text("")),
                ]),
            ),
            ("message", text("no such project")),
        ]),
    )])])
}

fn permissions() -> Json {
    obj(vec![
        ("canRead", text("allowed")),
        ("canInteract", text("not-allowed")),
        ("canShare", text("allowed")),
        ("canEdit", text("not-allowed")),
    ])
}

#[test]
fn scenario_success_envelope_gives_webfinger_document() {
    let project = resolve_from_batch("alice", Ok(listing_batch(&["alice"]))).unwrap();
    assert_eq!(project.handle, "alice");
    assert_eq!(project.display_name, "Alice A.");
    assert_eq!(project.headline, "hello there");
    assert_eq!(project.avatar_shape, AvatarShape::Circle);
    assert_eq!(project.privacy, Privacy::Public);
    assert_eq!(project.project_id, 42);
    assert_eq!(project.pronouns.as_deref(), Some("she/her"));
    assert_eq!(project.header_url, None);
    let handle = requested_handle(Some("acct:alice@example.com"), "example.com").unwrap();
    let doc = webfinger_response(&handle, "example.com", &Ok(project)).unwrap();
    assert_eq!(doc.subject, "acct:alice@example.com");
}

#[test]
fn scenario_structured_failure_gives_not_found() {
    let r = resolve_from_batch("alice", Ok(not_found_batch()));
    assert_eq!(r.as_ref().unwrap_err(), &ResolutionFailure::NotFound);
    let answer = webfinger_response("alice", "example.com", &r).unwrap_err();
    assert_eq!(answer.status, 404);
    let (status, body) = ResponseError::WithStatus(answer).into_response();
    assert_eq!(status, 404);
    assert_eq!(body, "{\"error\":\"no such user\"}");
}

#[test]
fn structured_failure_with_any_code_is_not_found() {
    let mut batch = not_found_batch();
    if let Json::Array(items) = &mut batch {
        if let Json::Object(members) = &mut items[0] {
            if let Json::Object(error) = &mut members[0].1 {
                error[0].1 = Json::Int(-32603);
            }
        }
    }
    assert_eq!(resolve_from_batch("bob", Ok(batch)).unwrap_err(), ResolutionFailure::NotFound);
}

#[test]
fn scenario_missing_resource_is_refused_before_upstream() {
    assert_eq!(requested_handle(None, "example.com").unwrap_err(), ResourceError::Missing);
    let refusal = ResourceError::Missing.to_error();
    assert_eq!(refusal.status, 400);
}

#[test]
fn scenario_loader_error_gives_actor_not_found() {
    let state = obj(vec![(
        "error",
        obj(vec![("message", text("no such page")), ("errorCode", text("not-found"))]),
    )]);
    let r = resolve_from_loader_state(Ok(state));
    assert_eq!(r.as_ref().unwrap_err(), &ResolutionFailure::NotFound);
    match actor_response("example.com", r) {
        Err(ResponseError::WithStatus(e)) => {
            assert_eq!(e.status, 404);
            assert_eq!(e.message, "no such user");
        }
        other => panic!("expected a 404, got {:?}", other),
    }
}

#[test]
fn loader_page_view_gives_actor() {
    let state = obj(vec![(
        "project-page-view",
        obj(vec![
            ("project", project_json("carol", "private")),
            ("pageHandle", text("carol")),
            ("canAccessPermissions", permissions()),
        ]),
    )]);
    let project = resolve_from_loader_state(Ok(state)).unwrap();
    assert_eq!(project.handle, "carol");
    let actor = actor_response("example.com", Ok(project)).unwrap();
    assert_eq!(actor.id, "https://example.com/users/carol");
    assert!(actor.manually_approves_followers);
}

#[test]
fn loader_state_reads_permissions() {
    let state = obj(vec![(
        "project-page-view",
        obj(vec![
            ("project", project_json("carol", "public")),
            ("pageHandle", text("carol")),
            ("canAccessPermissions", permissions()),
        ]),
    )]);
    match ProjectPageViewLoaderState::from_json(state).unwrap().into_result() {
        Ok(view) => {
            assert_eq!(view.page_handle, "carol");
            assert_eq!(view.can_access_permissions.can_read, AccessPermission::Allowed);
            assert_eq!(view.can_access_permissions.can_interact, AccessPermission::NotAllowed);
        }
        Err(e) => panic!("expected a page view, got {:?}", e),
    }
}

#[test]
fn loader_state_with_unknown_tag_is_protocol_violation() {
    let state = obj(vec![("redirect", obj(vec![]))]);
    assert_eq!(resolve_from_loader_state(Ok(state)).unwrap_err(), ResolutionFailure::ProtocolViolation);
}

#[test]
fn success_without_matching_record_is_not_found() {
    assert_eq!(
        resolve_from_batch("alice", Ok(listing_batch(&[]))).unwrap_err(),
        ResolutionFailure::NotFound
    );
    assert_eq!(
        resolve_from_batch("alice", Ok(listing_batch(&["bob"]))).unwrap_err(),
        ResolutionFailure::NotFound
    );
    let no_posts = Json::Array(vec![obj(vec![("result", obj(vec![("data", obj(vec![]))]))])]);
    assert_eq!(resolve_from_batch("alice", Ok(no_posts)).unwrap_err(), ResolutionFailure::NotFound);
}

#[test]
fn matching_record_is_found_among_others() {
    let project = resolve_from_batch("alice", Ok(listing_batch(&["bob", "alice", "carol"]))).unwrap();
    assert_eq!(project.handle, "alice");
}

#[test]
fn handles_are_case_sensitive() {
    assert_eq!(
        resolve_from_batch("Alice", Ok(listing_batch(&["alice"]))).unwrap_err(),
        ResolutionFailure::NotFound
    );
}

#[test]
fn malformed_matching_project_is_protocol_violation() {
    let post = obj(vec![("postingProject", obj(vec![("handle", text("alice"))]))]);
    let batch = Json::Array(vec![obj(vec![(
        "result",
        obj(vec![("data", obj(vec![("posts", Json::Array(vec![post]))]))]),
    )])]);
    assert_eq!(resolve_from_batch("alice", Ok(batch)).unwrap_err(), ResolutionFailure::ProtocolViolation);
}

#[test]
fn client_failures_are_classified() {
    let transport = resolve_from_batch("a", Err(ClientError::Transport("reset".to_string())));
    assert_eq!(transport.unwrap_err(), ResolutionFailure::UpstreamUnavailable);
    let decode = resolve_from_loader_state(Err(ClientError::Decode("bad json".to_string())));
    assert_eq!(decode.unwrap_err(), ResolutionFailure::UpstreamUnavailable);
    let missing = resolve_from_loader_state(Err(ClientError::NotFound("no element".to_string())));
    assert_eq!(missing.unwrap_err(), ResolutionFailure::ProtocolViolation);
    match actor_response("example.com", Err(ResolutionFailure::UpstreamUnavailable)) {
        Err(ResponseError::Internal(_)) => {}
        other => panic!("expected an internal error, got {:?}", other),
    }
}

#[test]
fn empty_batch_is_protocol_violation() {
    assert_eq!(
        resolve_from_batch("alice", Ok(Json::Array(vec![]))).unwrap_err(),
        ResolutionFailure::ProtocolViolation
    );
    assert_eq!(decode_single(Json::Array(vec![])).unwrap_err(), ProtocolError::MissingElement);
    assert_eq!(decode_single(obj(vec![])).unwrap_err(), ProtocolError::MissingElement);
}

#[test]
fn envelope_success_carries_data() {
    let item = obj(vec![("result", obj(vec![("data", Json::Int(7))]))]);
    match decode_one(item) {
        Ok(Ok(Json::Int(7))) => {}
        other => panic!("expected the payload, got {:?}", other),
    }
}

#[test]
fn envelope_failure_carries_error() {
    let batch = not_found_batch();
    let error: CohostError = match decode_single(batch) {
        Ok(Err(e)) => e,
        other => panic!("expected a failure, got {:?}", other),
    };
    assert_eq!(error.code, -1);
    assert_eq!(error.data.code, "NOT_FOUND");
    assert_eq!(error.data.http_status, 404);
    assert_eq!(error.data.path, "posts.profilePosts");
    assert_eq!(error.message, "no such project");
    assert_eq!(
        error.describe(),
        "Cohost HTTP error 404, error code NOT_FOUND (-1), request type posts.profilePosts, message \"no such project\""
    );
}

#[test]
fn envelope_with_unknown_or_two_tags_is_protocol_error() {
    let unknown = obj(vec![("outcome", obj(vec![("data", Json::Null)]))]);
    assert_eq!(decode_one(unknown).unwrap_err(), ProtocolError::UnexpectedShape);
    let both = obj(vec![
        ("result", obj(vec![("data", Json::Null)])),
        ("error", obj(vec![])),
    ]);
    assert_eq!(decode_one(both).unwrap_err(), ProtocolError::UnexpectedShape);
    let no_data = obj(vec![("result", obj(vec![]))]);
    assert!(CohostResponse::from_json(no_data).is_none());
    let bad_error = obj(vec![("error", obj(vec![("code", text("x"))]))]);
    assert_eq!(decode_one(bad_error).unwrap_err(), ProtocolError::UnexpectedShape);
}

#[test]
fn project_fields_of_wrong_kind_do_not_decode() {
    let mut j = project_json("alice", "public");
    if let Json::Object(members) = &mut j {
        members[11].1 = Json::Int(-1);
    }
    assert!(Project::from_json(j).is_none());
    let unknown_privacy = project_json("alice", "secret");
    assert!(Project::from_json(unknown_privacy).is_none());
}

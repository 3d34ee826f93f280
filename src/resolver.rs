//! Deciding whether a handle names an existing account, and reading its
//! profile, from what the upstream answered.

use vstd::prelude::*;
use crate::envelope::{decode_single, first_item, success_payload, failure_body};
use crate::error::{ClientError, ResolutionFailure, failure_of};
use crate::json::{Json, field, text_of};
use crate::types::{
    Project, ProjectPageViewLoaderState, project_readable, project_read, loader_state_read,
    only_member, page_view_readable, loader_error_readable,
};

verus! {

broadcast use vstd::string::group_string_axioms;

/// The posts of a profile listing; none when the listing has no array of them.
pub open spec fn posts_of(data: Json) -> Seq<Json> {
    match field(data, "posts"@) {
        Some(Json::Array(items)) => items@,
        _ => Seq::empty(),
    }
}

/// Whether `post` was posted by the project with handle `handle`.
pub open spec fn posted_by(post: Json, handle: Seq<char>) -> bool {
    match field(post, "postingProject"@) {
        Some(p) => text_of(field(p, "handle"@)) == Some(handle),
        None => false,
    }
}

/// The position of the first post by `handle`.
pub open spec fn first_post_by(posts: Seq<Json>, handle: Seq<char>) -> Option<int>
    decreases posts.len(),
{
    if posts.len() == 0 {
        None
    } else if posted_by(posts[0], handle) {
        Some(0)
    } else {
        match first_post_by(posts.drop_first(), handle) {
            Some(i) => Some(i + 1),
            None => None,
        }
    }
}

proof fn lemma_first_post_by(posts: Seq<Json>, handle: Seq<char>)
    ensures
        match first_post_by(posts, handle) {
            Some(i) => 0 <= i < posts.len() && posted_by(posts[i], handle)
                && forall|j: int| 0 <= j < i ==> !posted_by(posts[j], handle),
            None => forall|j: int| 0 <= j < posts.len() ==> !posted_by(posts[j], handle),
        },
    decreases posts.len(),
{
    if posts.len() > 0 {
        lemma_first_post_by(posts.drop_first(), handle);
        assert forall|j: int| 1 <= j < posts.len() implies posts[j] == posts.drop_first()[j - 1] by {}
    }
}

/// The profile that a listing of posts gives for `handle`: the project that
/// wrote the first post by `handle`. Whether `r` is what resolution gives.
pub open spec fn resolved_from_listing(data: Json, handle: Seq<char>, r: Result<Project, ResolutionFailure>) -> bool {
    match first_post_by(posts_of(data), handle) {
        Some(i) => match field(posts_of(data)[i], "postingProject"@) {
            Some(p) => if project_readable(p) {
                r matches Ok(q) && project_read(p, q)
            } else {
                r == Err::<Project, ResolutionFailure>(ResolutionFailure::ProtocolViolation)
            },
            None => false,
        },
        None => r == Err::<Project, ResolutionFailure>(ResolutionFailure::NotFound),
    }
}

/// Whether `r` is what resolving `handle` gives from the answer of a profile
/// posts query.
pub open spec fn resolved_from_batch(handle: Seq<char>, answer: Result<Json, ClientError>, r: Result<Project, ResolutionFailure>) -> bool {
    match answer {
        Err(e) => r == Err::<Project, ResolutionFailure>(failure_of(e)),
        Ok(batch) => match first_item(batch) {
            None => r == Err::<Project, ResolutionFailure>(ResolutionFailure::ProtocolViolation),
            Some(item) => match success_payload(item) {
                Some(data) => resolved_from_listing(data, handle, r),
                None => if failure_body(item) is Some {
                    r == Err::<Project, ResolutionFailure>(ResolutionFailure::NotFound)
                } else {
                    r == Err::<Project, ResolutionFailure>(ResolutionFailure::ProtocolViolation)
                },
            },
        },
    }
}

/// Whether `r` is what resolution gives from a page's loader state: the
/// project of a page view, `NotFound` for a page that reports an error, and
/// a protocol violation for any other shape.
pub open spec fn resolved_from_loader(answer: Result<Json, ClientError>, r: Result<Project, ResolutionFailure>) -> bool {
    match answer {
        Err(e) => r == Err::<Project, ResolutionFailure>(failure_of(e)),
        Ok(state) => match only_member(state) {
            Some((tag, v)) => if tag == "project-page-view"@ && page_view_readable(v) {
                r matches Ok(p) && field(v, "project"@) matches Some(pj) && project_read(pj, p)
            } else if tag == "error"@ && loader_error_readable(v) {
                r == Err::<Project, ResolutionFailure>(ResolutionFailure::NotFound)
            } else {
                r == Err::<Project, ResolutionFailure>(ResolutionFailure::ProtocolViolation)
            },
            None => r == Err::<Project, ResolutionFailure>(ResolutionFailure::ProtocolViolation),
        },
    }
}

/// Takes the project of the first post by `handle` out of a listing.
#[verifier::loop_isolation(false)]
fn project_from_listing(data: Json, handle: &str) -> (r: Result<Project, ResolutionFailure>)
    ensures
        resolved_from_listing(data, handle@, r),
        r matches Ok(p) ==> p.handle@ == handle@,
{
    let ghost posts = posts_of(data);
    proof {
        lemma_first_post_by(posts, handle@);
    }
    let mut data = data;
    let mut items = match data.take("posts") {
        Some(Json::Array(items)) => items,
        _ => return Err(ResolutionFailure::NotFound),
    };
    assert(items@ == posts);
    let h = handle.to_string();
    let mut i: usize = 0;
    while i < items.len()
        invariant
            i <= items.len(),
            items@ == posts,
            h@ == handle@,
            forall|j: int| 0 <= j < i ==> !posted_by(posts[j], handle@),
        decreases items.len() - i,
    {
        let by_handle = match items[i].get("postingProject") {
            Some(p) => match p.get_text("handle") {
                Some(t) => t == h,
                None => false,
            },
            None => false,
        };
        if by_handle {
            assert(first_post_by(posts, handle@) == Some(i as int));
            let mut post = items.remove(i);
            return match post.take("postingProject") {
                Some(p) => match Project::from_json(p) {
                    Some(q) => Ok(q),
                    None => Err(ResolutionFailure::ProtocolViolation),
                },
                None => Err(ResolutionFailure::ProtocolViolation),
            };
        }
        i = i + 1;
    }
    Err(ResolutionFailure::NotFound)
}

/// Resolves `handle` from the answer to a profile posts query for it: a
/// failure the upstream reports, or a listing without a post by `handle`,
/// means that there is no such account.
pub fn resolve_from_batch(handle: &str, answer: Result<Json, ClientError>) -> (r: Result<Project, ResolutionFailure>)
    ensures
        resolved_from_batch(handle@, answer, r),
        r matches Ok(p) ==> p.handle@ == handle@,
        answer matches Ok(batch) && first_item(batch) matches Some(item) && failure_body(item) is Some
            ==> r == Err::<Project, ResolutionFailure>(ResolutionFailure::NotFound),
        answer matches Ok(batch) && first_item(batch) matches Some(item)
            && success_payload(item) matches Some(data)
            && first_post_by(posts_of(data), handle@) matches Some(i)
            && field(posts_of(data)[i], "postingProject"@) matches Some(p)
            && project_readable(p)
            ==> (r matches Ok(q) && q.handle@ == handle@),
{
    proof {
        reveal_strlit("result");
        reveal_strlit("error");
        assert("result"@.len() != "error"@.len());
    }
    match answer {
        Err(e) => Err(e.to_resolution_failure()),
        Ok(batch) => match decode_single(batch) {
            Err(_) => Err(ResolutionFailure::ProtocolViolation),
            Ok(Err(_)) => Err(ResolutionFailure::NotFound),
            Ok(Ok(data)) => project_from_listing(data, handle),
        },
    }
}

/// Resolves the account of a page from its loader state: the page view's
/// project when there is one, `NotFound` when the page reports an error.
pub fn resolve_from_loader_state(answer: Result<Json, ClientError>) -> (r: Result<Project, ResolutionFailure>)
    ensures
        resolved_from_loader(answer, r),
{
    proof {
        reveal_strlit("project-page-view");
        reveal_strlit("error");
        assert("project-page-view"@.len() != "error"@.len());
    }
    match answer {
        Err(e) => Err(e.to_resolution_failure()),
        Ok(state) => {
            let ghost st = state;
            match ProjectPageViewLoaderState::from_json(state) {
                Some(s) => {
                    let ghost gs = s;
                    let r = match s.into_result() {
                        Ok(view) => Ok(view.project),
                        Err(_) => Err(ResolutionFailure::NotFound),
                    };
                    assert(loader_state_read(st, gs));
                    r
                },
                None => Err(ResolutionFailure::ProtocolViolation),
            }
        },
    }
}

} // verus!

//! The query client's side of each request: where it goes and which headers
//! it carries. Sending it is left to the caller.

use vstd::prelude::*;
use vstd::utf8::encode_utf8;
use crate::codec::{percent_encode, percent_encoded, json_quote, json_string_literal};
use crate::document::json_bool;
use crate::text::{decimal_digits, decimal_string, join, joined};
use crate::types::{ProfilePostsInput, ProfilePostsInputOptions};

verus! {

broadcast use vstd::string::group_string_axioms;

/// The host of the upstream platform; every request goes there over HTTPS.
pub const UPSTREAM_AUTHORITY: &'static str = "cohost.org";

/// The configuration shared by all requests: the user agent the client
/// presents and the session credential, if one is configured.
#[derive(Debug, Clone)]
pub struct CohostApi {
    pub user_agent: String,
    pub token: Option<String>,
}

/// One header of a request, as name and value.
pub open spec fn header_view(h: (String, String)) -> (Seq<char>, Seq<char>) {
    (h.0@, h.1@)
}

/// The headers of a request made with `api`: the user agent, the session
/// cookie when a credential is configured, and a request for HTML when
/// `accept_html` holds.
pub open spec fn request_headers_spec(api: CohostApi, accept_html: bool) -> Seq<(Seq<char>, Seq<char>)> {
    seq![("user-agent"@, api.user_agent@)]
        + match api.token {
            Some(t) => seq![("cookie"@, "Cookie: connect.sid="@ + t@)],
            None => Seq::empty(),
        }
        + if accept_html { seq![("accept"@, "text/html"@)] } else { Seq::empty() }
}

/// The path and query of a batched request for `queries`, whose inputs are
/// the JSON text `input`.
pub open spec fn trpc_path_spec(queries: Seq<Seq<char>>, batch: bool, input: Seq<char>) -> Seq<char> {
    "/api/v1/trpc/"@ + joined(queries, ","@) + "?batch="@ + (if batch { "1"@ } else { "0"@ })
        + "&input="@ + percent_encoded(encode_utf8(input))
}

/// The member of the batch input object that holds the input at `index`.
pub open spec fn batch_member(index: nat, input: Seq<char>) -> Seq<char> {
    seq!['"'] + decimal_digits(index) + seq!['"', ':'] + input
}

/// The JSON object that keys each input by its position, written in order.
pub open spec fn batch_input_spec(inputs: Seq<Seq<char>>) -> Seq<char> {
    "{"@ + joined(Seq::new(inputs.len(), |i: int| batch_member(i as nat, inputs[i])), ","@) + "}"@
}

/// The JSON text of a profile posts input.
pub open spec fn profile_posts_input_json(input: ProfilePostsInput) -> Seq<char> {
    "{\"projectHandle\":"@ + json_string_literal(input.project_handle@) + ",\"page\":"@
        + decimal_digits(input.page as nat) + ",\"options\":{\"hideReplies\":"@
        + json_bool(input.options.hide_replies) + ",\"hideShares\":"@
        + json_bool(input.options.hide_shares) + "}}"@
}

fn header(name: &str, value: String) -> (r: (String, String))
    ensures
        r.0@ == name@,
        r.1@ == value@,
{
    (name.to_string(), value)
}

impl CohostApi {
    /// A client that presents itself as this bridge at `version`, without a
    /// session credential.
    pub fn new(version: &str) -> (r: CohostApi)
        ensures
            r.user_agent@ == "cobridge/"@ + version@,
            r.token is None,
    {
        let mut user_agent = String::from_str("cobridge/");
        user_agent.append(version);
        CohostApi { user_agent, token: None }
    }

    /// The same client with a session credential.
    pub fn with_token(self, token: String) -> (r: CohostApi)
        ensures
            r.user_agent == self.user_agent,
            r.token == Some(token),
    {
        CohostApi { user_agent: self.user_agent, token: Some(token) }
    }

    /// The headers of a request, in the order they are sent.
    pub fn request_headers(&self, accept_html: bool) -> (r: Vec<(String, String)>)
        ensures
            r@.map_values(|h: (String, String)| header_view(h)) == request_headers_spec(*self, accept_html),
    {
        let mut r: Vec<(String, String)> = Vec::new();
        r.push(header("user-agent", self.user_agent.clone()));
        match &self.token {
            Some(t) => {
                let mut cookie = String::from_str("Cookie: connect.sid=");
                cookie.append(t.as_str());
                r.push(header("cookie", cookie));
            },
            None => {},
        }
        if accept_html {
            r.push(header("accept", "text/html".to_string()));
        }
        assert(r@.map_values(|h: (String, String)| header_view(h)) =~= request_headers_spec(*self, accept_html));
        r
    }
}

/// The path and query of a batched request: the comma-joined query names,
/// the batch flag, and the percent-encoded JSON input.
pub fn trpc_path(queries: &Vec<String>, batch: bool, input: &str) -> (r: String)
    ensures
        r@ == trpc_path_spec(queries@.map_values(|s: String| s@), batch, input@),
{
    let mut r = String::from_str("/api/v1/trpc/");
    let names = join(queries, ",");
    r.append(names.as_str());
    r.append("?batch=");
    r.append(if batch { "1" } else { "0" });
    r.append("&input=");
    let encoded = percent_encode(input);
    r.append(encoded.as_str());
    r
}

/// The JSON object that keys each input text by its position: `"0"` for the
/// first, `"1"` for the second, and so on.
pub fn batch_input(inputs: &Vec<String>) -> (r: String)
    requires
        inputs.len() <= u64::MAX,
    ensures
        r@ == batch_input_spec(inputs@.map_values(|s: String| s@)),
{
    let ghost views = inputs@.map_values(|s: String| s@);
    let ghost all = Seq::new(views.len(), |i: int| batch_member(i as nat, views[i]));
    let mut members: Vec<String> = Vec::new();
    let mut i: usize = 0;
    while i < inputs.len()
        invariant
            i <= inputs.len(),
            inputs.len() <= u64::MAX,
            views == inputs@.map_values(|s: String| s@),
            all == Seq::new(views.len(), |i: int| batch_member(i as nat, views[i])),
            members@.len() == i,
            forall|j: int| 0 <= j < i ==> #[trigger] members@[j]@ == all[j],
        decreases inputs.len() - i,
    {
        let mut m = String::from_str("\"");
        let key = decimal_string(i as u64);
        m.append(key.as_str());
        m.append("\":");
        m.append(inputs[i].as_str());
        proof {
            reveal_strlit("\"");
            reveal_strlit("\":");
        }
        members.push(m);
        i = i + 1;
    }
    assert(members@.map_values(|s: String| s@) =~= all);
    let mut r = String::from_str("{");
    let body = join(&members, ",");
    r.append(body.as_str());
    r.append("}");
    r
}

/// Input of a query of the batched protocol that has a name of its own.
pub trait TrpcInput {
    /// The name of the query.
    spec fn spec_query_name() -> Seq<char>;

    /// The JSON text of this input.
    spec fn spec_json(&self) -> Seq<char>;

    /// The name of the query.
    fn query_name() -> (r: String)
        ensures
            r@ == Self::spec_query_name(),
    ;

    /// The JSON text of this input.
    fn to_json(&self) -> (r: String)
        ensures
            r@ == self.spec_json(),
    ;
}

/// The path and query of the batched request that runs one query alone.
pub fn trpc_single_path<Q: TrpcInput>(input: &Q) -> (r: String)
    ensures
        r@ == trpc_path_spec(seq![Q::spec_query_name()], true, batch_input_spec(seq![input.spec_json()])),
{
    let mut queries: Vec<String> = Vec::new();
    queries.push(Q::query_name());
    let mut inputs: Vec<String> = Vec::new();
    inputs.push(input.to_json());
    let text = batch_input(&inputs);
    let r = trpc_path(&queries, true, text.as_str());
    assert(queries@.map_values(|s: String| s@) =~= seq![Q::spec_query_name()]);
    assert(inputs@.map_values(|s: String| s@) =~= seq![input.spec_json()]);
    r
}

impl ProfilePostsInput {
    /// The input for the first page of the posts of `handle`, replies and
    /// shares included.
    pub fn first_page(handle: &str) -> (r: ProfilePostsInput)
        ensures
            r.project_handle@ == handle@,
            r.page == 0,
            !r.options.hide_replies,
            !r.options.hide_shares,
    {
        ProfilePostsInput {
            project_handle: handle.to_string(),
            page: 0,
            options: ProfilePostsInputOptions { hide_replies: false, hide_shares: false },
        }
    }
}

impl TrpcInput for ProfilePostsInput {
    open spec fn spec_query_name() -> Seq<char> {
        "posts.profilePosts"@
    }

    open spec fn spec_json(&self) -> Seq<char> {
        profile_posts_input_json(*self)
    }

    fn query_name() -> (r: String) {
        "posts.profilePosts".to_string()
    }

    /// Members are written in declaration order.
    fn to_json(&self) -> (r: String) {
        let mut r = String::from_str("{\"projectHandle\":");
        let quoted = json_quote(self.project_handle.as_str());
        r.append(quoted.as_str());
        r.append(",\"page\":");
        let page = decimal_string(self.page);
        r.append(page.as_str());
        r.append(",\"options\":{\"hideReplies\":");
        r.append(if self.options.hide_replies { "true" } else { "false" });
        r.append(",\"hideShares\":");
        r.append(if self.options.hide_shares { "true" } else { "false" });
        r.append("}}");
        r
    }
}

} // verus!

//! Writing JSON documents: an object is its members in order, each a name
//! and the JSON text of its value.

use vstd::prelude::*;
use crate::codec::{json_quote, json_string_literal};
use crate::json::opt_view;
use crate::text::{join, joined};

verus! {

broadcast use vstd::string::group_string_axioms;

/// A member of a document: its name and the JSON text of its value.
pub type MemberView = (Seq<char>, Seq<char>);

/// The view of a member.
pub open spec fn member_view(m: (String, String)) -> MemberView {
    (m.0@, m.1@)
}

/// The views of a sequence of members.
pub open spec fn members_view(ms: Seq<(String, String)>) -> Seq<MemberView> {
    ms.map_values(|m: (String, String)| member_view(m))
}

/// The views of a sequence of strings.
pub open spec fn texts_view(ss: Seq<String>) -> Seq<Seq<char>> {
    ss.map_values(|s: String| s@)
}

/// How one member is written.
pub open spec fn member_text(m: MemberView) -> Seq<char> {
    json_string_literal(m.0) + ":"@ + m.1
}

/// How an object is written: its members in order, separated by commas.
pub open spec fn object_text(members: Seq<MemberView>) -> Seq<char> {
    "{"@ + joined(members.map_values(|m: MemberView| member_text(m)), ","@) + "}"@
}

/// How an array is written, from the JSON texts of its items.
pub open spec fn array_text(items: Seq<Seq<char>>) -> Seq<char> {
    "["@ + joined(items, ","@) + "]"@
}

/// How an array of strings is written.
pub open spec fn string_array_text(items: Seq<Seq<char>>) -> Seq<char> {
    array_text(items.map_values(|s: Seq<char>| json_string_literal(s)))
}

/// The JSON text of a boolean.
pub open spec fn json_bool(b: bool) -> Seq<char> {
    if b { "true"@ } else { "false"@ }
}

/// The names of the members of an object.
pub open spec fn member_names(members: Seq<MemberView>) -> Seq<Seq<char>> {
    members.map_values(|m: MemberView| m.0)
}

/// A member holding a string, present only when there is one.
pub open spec fn optional_text_member(name: Seq<char>, value: Option<Seq<char>>) -> Seq<MemberView> {
    match value {
        Some(s) => seq![(name, json_string_literal(s))],
        None => Seq::empty(),
    }
}

/// Writes a boolean.
pub fn bool_text(b: bool) -> (r: String)
    ensures
        r@ == json_bool(b),
{
    if b { "true".to_string() } else { "false".to_string() }
}

/// Adds a member to the end of `members`.
pub fn push_member(members: &mut Vec<(String, String)>, name: &str, value: String)
    ensures
        members_view(final(members)@) == members_view(old(members)@).push((name@, value@)),
{
    members.push((name.to_string(), value));
    assert(members_view(members@) =~= members_view(old(members)@).push((name@, value@)));
}

/// Adds a member holding a string, when there is one.
pub fn push_optional_text(members: &mut Vec<(String, String)>, name: &str, value: &Option<String>)
    ensures
        members_view(final(members)@) == members_view(old(members)@) + optional_text_member(name@, opt_view(*value)),
{
    match value {
        Some(s) => push_member(members, name, json_quote(s.as_str())),
        None => {
            assert(members_view(members@) =~= members_view(old(members)@) + optional_text_member(name@, opt_view(*value)));
        },
    }
}

/// Writes an object from its members.
pub fn write_object(members: &Vec<(String, String)>) -> (r: String)
    ensures
        r@ == object_text(members_view(members@)),
{
    let ghost views = members_view(members@);
    let mut texts: Vec<String> = Vec::new();
    let mut i: usize = 0;
    while i < members.len()
        invariant
            i <= members.len(),
            views == members_view(members@),
            texts@.len() == i,
            forall|j: int| 0 <= j < i ==> #[trigger] texts@[j]@ == member_text(views[j]),
        decreases members.len() - i,
    {
        let mut t = json_quote(members[i].0.as_str());
        t.append(":");
        t.append(members[i].1.as_str());
        texts.push(t);
        i = i + 1;
    }
    assert(texts_view(texts@) =~= views.map_values(|m: MemberView| member_text(m)));
    let mut r = String::from_str("{");
    let body = join(&texts, ",");
    r.append(body.as_str());
    r.append("}");
    r
}

/// Writes an array from the JSON texts of its items.
pub fn write_array(items: &Vec<String>) -> (r: String)
    ensures
        r@ == array_text(texts_view(items@)),
{
    let mut r = String::from_str("[");
    let body = join(items, ",");
    r.append(body.as_str());
    r.append("]");
    r
}

/// Writes an array of strings.
pub fn write_string_array(items: &Vec<String>) -> (r: String)
    ensures
        r@ == string_array_text(texts_view(items@)),
{
    let ghost views = texts_view(items@);
    let mut quoted: Vec<String> = Vec::new();
    let mut i: usize = 0;
    while i < items.len()
        invariant
            i <= items.len(),
            views == texts_view(items@),
            quoted@.len() == i,
            forall|j: int| 0 <= j < i ==> #[trigger] quoted@[j]@ == json_string_literal(views[j]),
        decreases items.len() - i,
    {
        quoted.push(json_quote(items[i].as_str()));
        i = i + 1;
    }
    assert(texts_view(quoted@) =~= views.map_values(|s: Seq<char>| json_string_literal(s)));
    write_array(&quoted)
}

} // verus!

//! A JSON value as the library reads it, and typed access to object members.

use vstd::prelude::*;

verus! {

broadcast use vstd::string::group_string_axioms;

/// A JSON value. Numbers without a fractional part or exponent are held as
/// integers; any other number is held as the text that stood for it.
#[derive(Debug)]
pub enum Json {
    Null,
    Bool(bool),
    Int(i128),
    Decimal(String),
    Str(String),
    Array(Vec<Json>),
    Object(Vec<(String, Json)>),
}

/// The value of the first member of `members` named `key`.
pub open spec fn member(members: Seq<(String, Json)>, key: Seq<char>) -> Option<Json>
    decreases members.len(),
{
    if members.len() == 0 {
        None
    } else if members[0].0@ == key {
        Some(members[0].1)
    } else {
        member(members.drop_first(), key)
    }
}

proof fn lemma_member_at(members: Seq<(String, Json)>, key: Seq<char>, i: int)
    requires
        0 <= i < members.len(),
        members[i].0@ == key,
        forall|j: int| 0 <= j < i ==> members[j].0@ != key,
    ensures
        member(members, key) == Some(members[i].1),
    decreases i,
{
    if i > 0 {
        lemma_member_at(members.drop_first(), key, i - 1);
    }
}

proof fn lemma_member_absent(members: Seq<(String, Json)>, key: Seq<char>)
    requires
        forall|j: int| 0 <= j < members.len() ==> members[j].0@ != key,
    ensures
        member(members, key) is None,
    decreases members.len(),
{
    if members.len() > 0 {
        lemma_member_absent(members.drop_first(), key);
    }
}

proof fn lemma_member_remove(members: Seq<(String, Json)>, key: Seq<char>, i: int)
    requires
        0 <= i < members.len(),
        members[i].0@ != key,
    ensures
        member(members.remove(i), key) == member(members, key),
    decreases i,
{
    if i > 0 && members[0].0@ != key {
        assert(members.remove(i).drop_first() == members.drop_first().remove(i - 1));
        lemma_member_remove(members.drop_first(), key, i - 1);
    } else if i == 0 {
        assert(members.remove(0) == members.drop_first());
    }
}

/// The value of member `key` when `j` is an object that has one.
pub open spec fn field(j: Json, key: Seq<char>) -> Option<Json> {
    match j {
        Json::Object(members) => member(members@, key),
        _ => None,
    }
}

/// The text of a member that is a JSON string.
pub open spec fn text_of(v: Option<Json>) -> Option<Seq<char>> {
    match v {
        Some(Json::Str(s)) => Some(s@),
        _ => None,
    }
}

/// An optional text member: absent or `null` is `Some(None)`, a string is
/// `Some(Some(text))`, anything else does not decode.
pub open spec fn optional_text_of(v: Option<Json>) -> Option<Option<Seq<char>>> {
    match v {
        None => Some(None),
        Some(Json::Null) => Some(None),
        Some(Json::Str(s)) => Some(Some(s@)),
        _ => None,
    }
}

/// The integer of a member that is a JSON integer.
pub open spec fn int_of(v: Option<Json>) -> Option<int> {
    match v {
        Some(Json::Int(i)) => Some(i as int),
        _ => None,
    }
}

/// The boolean of a member that is a JSON boolean.
pub open spec fn bool_of(v: Option<Json>) -> Option<bool> {
    match v {
        Some(Json::Bool(b)) => Some(b),
        _ => None,
    }
}

/// The view of an optional string.
pub open spec fn opt_view(o: Option<String>) -> Option<Seq<char>> {
    match o {
        Some(s) => Some(s@),
        None => None,
    }
}

impl Json {
    /// The value of member `key`, when this is an object that has one.
    #[verifier::loop_isolation(false)]
    pub fn get(&self, key: &str) -> (r: Option<&Json>)
        ensures
            r matches Some(v) ==> field(*self, key@) == Some(*v),
            r is None ==> field(*self, key@) is None,
    {
        match self {
            Json::Object(members) => {
                let k = key.to_string();
                let mut i: usize = 0;
                while i < members.len()
                    invariant
                        i <= members.len(),
                        k@ == key@,
                        forall|j: int| 0 <= j < i ==> members@[j].0@ != key@,
                    decreases members.len() - i,
                {
                    if members[i].0 == k {
                        proof {
                            lemma_member_at(members@, key@, i as int);
                        }
                        return Some(&members[i].1);
                    }
                    i = i + 1;
                }
                proof {
                    lemma_member_absent(members@, key@);
                }
                None
            },
            _ => None,
        }
    }

    /// Removes the first member named `key` from this object and returns its
    /// value; the other members stay, in their order.
    #[verifier::loop_isolation(false)]
    pub fn take(&mut self, key: &str) -> (r: Option<Json>)
        ensures
            r == field(*old(self), key@),
            forall|k: Seq<char>| k != key@ ==> field(*final(self), k) == field(*old(self), k),
    {
        match self {
            Json::Object(members) => {
                let k = key.to_string();
                let mut i: usize = 0;
                while i < members.len()
                    invariant
                        i <= members.len(),
                        k@ == key@,
                        members@ == old(self)->Object_0@,
                        forall|j: int| 0 <= j < i ==> members@[j].0@ != key@,
                    decreases members.len() - i,
                {
                    if members[i].0 == k {
                        proof {
                            lemma_member_at(members@, key@, i as int);
                            assert forall|q: Seq<char>| q != key@ implies
                                member(members@.remove(i as int), q) == member(members@, q) by {
                                lemma_member_remove(members@, q, i as int);
                            }
                        }
                        let ghost before = members@;
                        let (_, v) = members.remove(i);
                        assert(v == before[i as int].1);
                        assert(members@ == before.remove(i as int));
                        return Some(v);
                    }
                    i = i + 1;
                }
                proof {
                    lemma_member_absent(members@, key@);
                }
                None
            },
            _ => None,
        }
    }

    /// The text of member `key`, when it is a string.
    pub fn get_text(&self, key: &str) -> (r: Option<String>)
        ensures
            opt_view(r) == text_of(field(*self, key@)),
    {
        match self.get(key) {
            Some(Json::Str(s)) => Some(s.clone()),
            _ => None,
        }
    }

    /// Member `key` as an optional text: `Some(None)` when it is absent or
    /// `null`, `None` when it is neither of those nor a string.
    pub fn get_optional_text(&self, key: &str) -> (r: Option<Option<String>>)
        ensures
            match optional_text_of(field(*self, key@)) {
                Some(t) => r matches Some(o) && opt_view(o) == t,
                None => r is None,
            },
    {
        match self.get(key) {
            None => Some(None),
            Some(Json::Null) => Some(None),
            Some(Json::Str(s)) => Some(Some(s.clone())),
            _ => None,
        }
    }

    /// Member `key` as an integer, when it is an integer in `[lo, hi]`.
    pub fn get_int_in(&self, key: &str, lo: i128, hi: i128) -> (r: Option<i128>)
        ensures
            match int_of(field(*self, key@)) {
                Some(i) => if lo <= i <= hi { r == Some(i as i128) } else { r is None },
                None => r is None,
            },
    {
        match self.get(key) {
            Some(Json::Int(i)) => {
                if lo <= *i && *i <= hi {
                    Some(*i)
                } else {
                    None
                }
            },
            _ => None,
        }
    }

    /// Member `key` as a boolean.
    pub fn get_bool(&self, key: &str) -> (r: Option<bool>)
        ensures
            r == bool_of(field(*self, key@)),
    {
        match self.get(key) {
            Some(Json::Bool(b)) => Some(*b),
            _ => None,
        }
    }
}

} // verus!

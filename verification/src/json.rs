//! A JSON value model: what provider frames and event payloads carry.
//!
//! Text is turned into a `Json` value at the I/O edge; the library reads
//! and builds values of this type.

use vstd::prelude::*;

verus! {

/// A JSON value. Numbers keep their textual form; objects keep their members
/// in order (keys are unique).
#[derive(Debug)]
pub enum Json {
    Null,
    Bool(bool),
    Number(String),
    Str(String),
    Array(Vec<Json>),
    Object(Vec<JsonMember>),
}

/// One member of a JSON object.
#[derive(Debug)]
pub struct JsonMember {
    pub key: String,
    pub value: Json,
}

/// The value of the first member named `key` among `members[i..]`.
pub open spec fn lookup_from(members: Seq<JsonMember>, key: Seq<char>, i: int) -> Option<Json>
    decreases members.len() - i,
{
    if i < 0 || i >= members.len() {
        None
    } else if members[i].key@ == key {
        Some(members[i].value)
    } else {
        lookup_from(members, key, i + 1)
    }
}

/// The member `key` of an object; `None` for other values or a missing key.
pub open spec fn spec_get(v: Json, key: Seq<char>) -> Option<Json> {
    match v {
        Json::Object(members) => lookup_from(members@, key, 0),
        _ => None,
    }
}

/// The member `key` of `v`, when `v` is `Some` object holding it.
pub open spec fn spec_get_opt(v: Option<Json>, key: Seq<char>) -> Option<Json> {
    match v {
        Some(x) => spec_get(x, key),
        None => None,
    }
}

/// The text of a JSON string.
pub open spec fn spec_as_str(v: Option<Json>) -> Option<Seq<char>> {
    match v {
        Some(Json::Str(s)) => Some(s@),
        _ => None,
    }
}

/// The value of a JSON boolean.
pub open spec fn spec_as_bool(v: Option<Json>) -> Option<bool> {
    match v {
        Some(Json::Bool(b)) => Some(b),
        _ => None,
    }
}

impl Json {
    /// The member `key` of an object.
    pub fn get(&self, key: &str) -> (r: Option<&Json>)
        ensures
            match r {
                Some(x) => spec_get(*self, key@) == Some(*x),
                None => spec_get(*self, key@) is None,
            },
    {
        match self {
            Json::Object(members) => {
                let mut i: usize = 0;
                while i < members.len()
                    invariant
                        i <= members.len(),
                        spec_get(*self, key@) == lookup_from(members@, key@, i as int),
                    decreases members.len() - i,
                {
                    if str_eq(members[i].key.as_str(), key) {
                        return Some(&members[i].value);
                    }
                    i = i + 1;
                }
                None
            },
            _ => None,
        }
    }

    /// Whether the value is an object.
    pub fn is_object(&self) -> (b: bool)
        ensures
            b == (*self is Object),
    {
        match self {
            Json::Object(_) => true,
            _ => false,
        }
    }
}

/// The text of `v` when it is a JSON string.
pub fn as_str(v: Option<&Json>) -> (r: Option<&String>)
    ensures
        match r {
            Some(s) => spec_as_str(match v {
                Some(x) => Some(*x),
                None => None,
            }) == Some(s@),
            None => spec_as_str(match v {
                Some(x) => Some(*x),
                None => None,
            }) is None,
        },
{
    match v {
        Some(Json::Str(s)) => Some(s),
        _ => None,
    }
}

/// The value of `v` when it is a JSON boolean.
pub fn as_bool(v: Option<&Json>) -> (r: Option<bool>)
    ensures
        r == spec_as_bool(match v {
            Some(x) => Some(*x),
            None => None,
        }),
{
    match v {
        Some(Json::Bool(b)) => Some(*b),
        _ => None,
    }
}

/// Whether two texts are equal.
pub fn str_eq(a: &str, b: &str) -> (r: bool)
    ensures
        r == (a@ == b@),
{
    let av = crate::text::chars_of(a);
    let bv = crate::text::chars_of(b);
    if av.len() != bv.len() {
        return false;
    }
    let mut i: usize = 0;
    while i < av.len()
        invariant
            av@ == a@,
            bv@ == b@,
            av.len() == bv.len(),
            i <= av.len(),
            forall|k: int| 0 <= k < i ==> av@[k] == bv@[k],
        decreases av.len() - i,
    {
        if av[i] != bv[i] {
            return false;
        }
        i = i + 1;
    }
    assert(av@ =~= bv@);
    true
}

/// The number of members of an object (zero for other values).
pub open spec fn member_count(v: Json) -> nat {
    match v {
        Json::Object(members) => members@.len(),
        _ => 0,
    }
}

/// The object `{k: v}`.
pub fn object1(k: &str, v: Json) -> (r: Json)
    ensures
        r is Object,
        member_count(r) == 1,
        spec_get(r, k@) == Some(v),
{
    let mut members: Vec<JsonMember> = Vec::new();
    members.push(JsonMember { key: String::from_str(k), value: v });
    Json::Object(members)
}

/// The object `{k1: v1, k2: v2, k3: v3}` with distinct keys.
pub fn object3(k1: &str, v1: Json, k2: &str, v2: Json, k3: &str, v3: Json) -> (r: Json)
    requires
        k1@ != k2@,
        k1@ != k3@,
        k2@ != k3@,
    ensures
        r is Object,
        member_count(r) == 3,
        spec_get(r, k1@) == Some(v1),
        spec_get(r, k2@) == Some(v2),
        spec_get(r, k3@) == Some(v3),
{
    let mut members: Vec<JsonMember> = Vec::new();
    members.push(JsonMember { key: String::from_str(k1), value: v1 });
    members.push(JsonMember { key: String::from_str(k2), value: v2 });
    members.push(JsonMember { key: String::from_str(k3), value: v3 });
    let r = Json::Object(members);
    assert(lookup_from(members@, k2@, 0) == lookup_from(members@, k2@, 1));
    assert(lookup_from(members@, k3@, 0) == lookup_from(members@, k3@, 1));
    assert(lookup_from(members@, k3@, 1) == lookup_from(members@, k3@, 2));
    r
}

/// Looking a key up among members with one more appended: an earlier
/// member keeps precedence.
pub proof fn lemma_lookup_push(members: Seq<JsonMember>, m: JsonMember, key: Seq<char>, i: int)
    requires
        0 <= i <= members.len(),
    ensures
        lookup_from(members.push(m), key, i) == (if lookup_from(members, key, i) is Some {
            lookup_from(members, key, i)
        } else if m.key@ == key {
            Some(m.value)
        } else {
            None::<Json>
        }),
    decreases members.len() - i,
{
    let pm = members.push(m);
    assert(pm.len() == members.len() + 1);
    if i < members.len() {
        lemma_lookup_push(members, m, key, i + 1);
        assert(pm[i] == members[i]);
        if members[i].key@ == key {
            assert(lookup_from(pm, key, i) == Some(members[i].value));
        } else {
            assert(lookup_from(pm, key, i) == lookup_from(pm, key, i + 1));
            assert(lookup_from(members, key, i) == lookup_from(members, key, i + 1));
        }
    } else {
        assert(pm[i] == m);
        assert(lookup_from(pm, key, i + 1) is None);
        assert(lookup_from(members, key, i) is None);
    }
}

/// Appends the member `key: value` to an object's members.
pub fn push_member(members: &mut Vec<JsonMember>, key: &str, value: Json)
    ensures
        final(members)@.len() == old(members)@.len() + 1,
        forall|k: Seq<char>| #[trigger]
            lookup_from(final(members)@, k, 0) == (if lookup_from(old(members)@, k, 0) is Some {
                lookup_from(old(members)@, k, 0)
            } else if k == key@ {
                Some(value)
            } else {
                None::<Json>
            }),
{
    let ghost before = members@;
    let m = JsonMember { key: String::from_str(key), value };
    members.push(m);
    proof {
        assert forall|k: Seq<char>| #[trigger]
            lookup_from(members@, k, 0) == (if lookup_from(before, k, 0) is Some {
                lookup_from(before, k, 0)
            } else if k == key@ {
                Some(value)
            } else {
                None::<Json>
            }) by {
            lemma_lookup_push(before, m, k, 0);
        }
    }
}

/// The index of the first member named `key`, if any.
pub fn find_member(members: &Vec<JsonMember>, key: &str) -> (r: Option<usize>)
    ensures
        match r {
            Some(i) => i < members@.len() && lookup_from(members@, key@, 0) == Some(members@[i as int].value),
            None => lookup_from(members@, key@, 0) is None,
        },
{
    let mut i: usize = 0;
    while i < members.len()
        invariant
            i <= members.len(),
            lookup_from(members@, key@, 0) == lookup_from(members@, key@, i as int),
        decreases members.len() - i,
    {
        if str_eq(members[i].key.as_str(), key) {
            return Some(i);
        }
        i = i + 1;
    }
    None
}

} // verus!

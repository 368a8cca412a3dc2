//! A JSON document as plain values, and the lookups the interpreters make on it.

use vstd::prelude::*;

verus! {

/// A JSON number: its text, and its value where it is a non-negative integer
/// that fits in 64 bits.
#[derive(Debug, Clone, PartialEq, Eq)]
pub struct JsonNumber {
    pub text: String,
    pub as_u64: Option<u64>,
}

/// A JSON value. Object members keep their document order; keys are unique.
#[derive(Debug, PartialEq, Eq)]
pub enum JsonValue {
    Null,
    Bool(bool),
    Number(JsonNumber),
    Str(String),
    Array(Vec<JsonValue>),
    Object(Vec<(String, JsonValue)>),
}

/// The value of the first member named `key`.
pub open spec fn lookup(members: Seq<(String, JsonValue)>, key: Seq<char>) -> Option<JsonValue>
    decreases members.len(),
{
    if members.len() == 0 {
        None
    } else if members[0].0@ == key {
        Some(members[0].1)
    } else {
        lookup(members.drop_first(), key)
    }
}

/// The member `key` of an object; `None` for a missing member or a non-object.
pub open spec fn field(v: JsonValue, key: Seq<char>) -> Option<JsonValue> {
    match v {
        JsonValue::Object(members) => lookup(members@, key),
        _ => None,
    }
}

pub open spec fn bool_of(v: Option<JsonValue>) -> Option<bool> {
    match v {
        Some(JsonValue::Bool(b)) => Some(b),
        _ => None,
    }
}

pub open spec fn str_of(v: Option<JsonValue>) -> Option<Seq<char>> {
    match v {
        Some(JsonValue::Str(s)) => Some(s@),
        _ => None,
    }
}

pub open spec fn u64_of(v: Option<JsonValue>) -> Option<u64> {
    match v {
        Some(JsonValue::Number(n)) => n.as_u64,
        _ => None,
    }
}

/// The string items of a sequence of values, in order; other items are skipped.
pub open spec fn strings_in(items: Seq<JsonValue>) -> Seq<Seq<char>>
    decreases items.len(),
{
    if items.len() == 0 {
        seq![]
    } else {
        let rest = strings_in(items.drop_last());
        match items.last() {
            JsonValue::Str(s) => rest.push(s@),
            _ => rest,
        }
    }
}

/// The string items of an array value; empty for a missing value or a non-array.
pub open spec fn string_items(v: Option<JsonValue>) -> Seq<Seq<char>> {
    match v {
        Some(JsonValue::Array(items)) => strings_in(items@),
        _ => seq![],
    }
}

impl JsonValue {
    /// The member `key` of an object.
    pub fn get(&self, key: &str) -> (r: Option<&JsonValue>)
        ensures
            r is Some == field(*self, key@) is Some,
            r is Some ==> *r->0 == field(*self, key@)->0,
    {
        match self {
            JsonValue::Object(members) => {
                let mut i: usize = 0;
                assert(members@.subrange(0, members@.len() as int) =~= members@);
                while i < members.len()
                    invariant
                        i <= members.len(),
                        field(*self, key@) == lookup(members@, key@),
                        lookup(members@, key@) == lookup(members@.subrange(i as int, members@.len() as int), key@),
                    decreases members.len() - i,
                {
                    let ghost rest = members@.subrange(i as int, members@.len() as int);
                    assert(rest.drop_first() =~= members@.subrange(i + 1, members@.len() as int));
                    assert(rest[0] == members@[i as int]);
                    if str_eq(members[i].0.as_str(), key) {
                        return Some(&members[i].1);
                    }
                    i = i + 1;
                }
                None
            },
            _ => None,
        }
    }
}

/// Whether two strings are equal, character by character.
pub fn str_eq(a: &str, b: &str) -> (r: bool)
    ensures
        r == (a@ == b@),
{
    let n = a.unicode_len();
    if n != b.unicode_len() {
        return false;
    }
    let mut i: usize = 0;
    while i < n
        invariant
            i <= n,
            n == a@.len(),
            n == b@.len(),
            a@.subrange(0, i as int) == b@.subrange(0, i as int),
        decreases n - i,
    {
        if a.get_char(i) != b.get_char(i) {
            return false;
        }
        assert(a@.subrange(0, i + 1) =~= a@.subrange(0, i as int).push(a@[i as int]));
        assert(b@.subrange(0, i + 1) =~= b@.subrange(0, i as int).push(b@[i as int]));
        i = i + 1;
    }
    assert(a@ =~= a@.subrange(0, n as int));
    assert(b@ =~= b@.subrange(0, n as int));
    true
}

/// The boolean member `key`, if there is one.
pub fn get_bool(v: &JsonValue, key: &str) -> (r: Option<bool>)
    ensures
        r == bool_of(field(*v, key@)),
{
    match v.get(key) {
        Some(JsonValue::Bool(b)) => Some(*b),
        _ => None,
    }
}

/// The string member `key`, if there is one.
pub fn get_str(v: &JsonValue, key: &str) -> (r: Option<String>)
    ensures
        crate::model::opt_view(r) == str_of(field(*v, key@)),
{
    match v.get(key) {
        Some(JsonValue::Str(s)) => Some(s.clone()),
        _ => None,
    }
}

/// The unsigned integer member `key`, if there is one.
pub fn get_u64(v: &JsonValue, key: &str) -> (r: Option<u64>)
    ensures
        r == u64_of(field(*v, key@)),
{
    match v.get(key) {
        Some(JsonValue::Number(n)) => n.as_u64,
        _ => None,
    }
}

/// The string items of the array member `key`, in order.
pub fn get_string_items(v: &JsonValue, key: &str) -> (r: Vec<String>)
    ensures
        crate::model::views(r@) == string_items(field(*v, key@)),
{
    let mut r: Vec<String> = Vec::new();
    match v.get(key) {
        Some(JsonValue::Array(items)) => {
            let mut i: usize = 0;
            while i < items.len()
                invariant
                    i <= items.len(),
                    crate::model::views(r@) == strings_in(items@.subrange(0, i as int)),
                decreases items.len() - i,
            {
                let ghost before = items@.subrange(0, i as int);
                assert(items@.subrange(0, i + 1).drop_last() =~= before);
                match &items[i] {
                    JsonValue::Str(s) => crate::model::push_text(&mut r, s.as_str()),
                    _ => {},
                }
                i = i + 1;
            }
            assert(items@.subrange(0, items.len() as int) =~= items@);
        },
        _ => {},
    }
    r
}

/// The member `key` of an object, taken out of it.
pub fn take_field(v: JsonValue, key: &str) -> (r: Option<JsonValue>)
    ensures
        r == field(v, key@),
{
    let ghost whole = v;
    match v {
        JsonValue::Object(mut members) => {
            let ghost all = members@;
            let mut i: usize = 0;
            assert(members@.subrange(0, members@.len() as int) =~= members@);
            while i < members.len()
                invariant
                    members@ == all,
                    whole == v,
                    field(whole, key@) == lookup(all, key@),
                    i <= members.len(),
                    lookup(all, key@) == lookup(all.subrange(i as int, all.len() as int), key@),
                decreases members.len() - i,
            {
                let ghost rest = all.subrange(i as int, all.len() as int);
                assert(rest.drop_first() =~= all.subrange(i + 1, all.len() as int));
                assert(rest[0] == all[i as int]);
                if str_eq(members[i].0.as_str(), key) {
                    assert(lookup(rest, key@) == Some(all[i as int].1));
                    let member = members.remove(i);
                    assert(member == all[i as int]);
                    return Some(member.1);
                }
                i = i + 1;
            }
            None
        },
        _ => None,
    }
}

proof fn lemma_string_members_none(ms: Seq<(String, JsonValue)>, k: int)
    requires
        0 <= k <= ms.len(),
        string_members(ms.subrange(0, k)) is None,
    ensures
        string_members(ms) is None,
    decreases ms.len(),
{
    if k == ms.len() {
        assert(ms.subrange(0, k) =~= ms);
    } else {
        assert(ms.drop_last().subrange(0, k) =~= ms.subrange(0, k));
        lemma_string_members_none(ms.drop_last(), k);
    }
}

/// The string members of an object, in order, when every member holds a string.
pub open spec fn string_members(ms: Seq<(String, JsonValue)>) -> Option<Seq<(Seq<char>, Seq<char>)>>
    decreases ms.len(),
{
    if ms.len() == 0 {
        Some(seq![])
    } else {
        match (string_members(ms.drop_last()), ms.last().1) {
            (Some(r), JsonValue::Str(s)) => Some(r.push((ms.last().0@, s@))),
            _ => None,
        }
    }
}

/// An object whose members all hold strings, as (name, text) pairs.
pub open spec fn string_map(v: Option<JsonValue>) -> Option<Seq<(Seq<char>, Seq<char>)>> {
    match v {
        Some(JsonValue::Object(members)) => string_members(members@),
        _ => None,
    }
}

/// The views of a sequence of string pairs.
pub open spec fn pair_views(v: Seq<(String, String)>) -> Seq<(Seq<char>, Seq<char>)> {
    v.map_values(|p: (String, String)| (p.0@, p.1@))
}

/// The members of an object whose members all hold strings.
pub fn get_string_map(v: &JsonValue, key: &str) -> (r: Option<Vec<(String, String)>>)
    ensures
        match r {
            Some(pairs) => string_map(field(*v, key@)) == Some(pair_views(pairs@)),
            None => string_map(field(*v, key@)) is None,
        },
{
    match v.get(key) {
        Some(JsonValue::Object(members)) => {
            let mut r: Vec<(String, String)> = Vec::new();
            let mut i: usize = 0;
            while i < members.len()
                invariant
                    i <= members.len(),
                    string_map(field(*v, key@)) == string_members(members@),
                    string_members(members@.subrange(0, i as int)) == Some(pair_views(r@)),
                decreases members.len() - i,
            {
                let ghost before = members@.subrange(0, i as int);
                assert(members@.subrange(0, i + 1).drop_last() =~= before);
                match &members[i].1 {
                    JsonValue::Str(s) => {
                        let ghost old_r = r@;
                        r.push((members[i].0.clone(), s.clone()));
                        assert(pair_views(r@) =~= pair_views(old_r).push((members@[i as int].0@, s@)));
                    },
                    _ => {
                        proof {
                            let p = members@.subrange(0, i + 1);
                            assert(p.last() == members@[i as int]);
                            assert(string_members(p) is None);
                            lemma_string_members_none(members@, i + 1);
                        }
                        return None;
                    },
                }
                i = i + 1;
            }
            assert(members@.subrange(0, members.len() as int) =~= members@);
            Some(r)
        },
        _ => None,
    }
}

} // verus!

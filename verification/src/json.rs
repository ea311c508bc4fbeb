//! A JSON document tree, as the library reads it.
use vstd::prelude::*;

use crate::text::str_eq;

verus! {

/// A JSON value. Numbers are kept as the text that renders them; object
/// members keep the order in which the document lists them.
#[derive(Debug)]
pub enum JsonValue {
    Null,
    Bool(bool),
    Number(String),
    Str(String),
    Array(Vec<JsonValue>),
    Object(Vec<(String, JsonValue)>),
}

/// The index of the first member of `members` named `key`.
pub open spec fn member_index(members: Seq<(String, JsonValue)>, key: Seq<char>) -> Option<int>
    decreases members.len(),
{
    if members.len() == 0 {
        None
    } else if members[0].0@ == key {
        Some(0)
    } else {
        match member_index(members.drop_first(), key) {
            Some(i) => Some(i + 1),
            None => None,
        }
    }
}

/// `value[key]` for an object, `None` for anything else (`Value::get`).
pub open spec fn spec_get(value: JsonValue, key: Seq<char>) -> Option<JsonValue> {
    match value {
        JsonValue::Object(members) => match member_index(members@, key) {
            Some(i) => Some(members@[i].1),
            None => None,
        },
        _ => None,
    }
}

/// The text of a JSON string (`Value::as_str`).
pub open spec fn spec_as_str(value: Option<JsonValue>) -> Option<Seq<char>> {
    match value {
        Some(JsonValue::Str(s)) => Some(s@),
        _ => None,
    }
}

/// What `member_index` finds: the first member with the key, or none.
pub proof fn lemma_member_index(members: Seq<(String, JsonValue)>, key: Seq<char>)
    ensures
        member_index(members, key) matches Some(i) ==> 0 <= i < members.len() && members[i].0@
            == key && forall|j: int| 0 <= j < i ==> members[j].0@ != key,
        member_index(members, key) is None ==> forall|j: int|
            0 <= j < members.len() ==> members[j].0@ != key,
    decreases members.len(),
{
    if members.len() > 0 {
        lemma_member_index(members.drop_first(), key);
        assert forall|j: int| 0 < j < members.len() implies members[j] == members.drop_first()[j
            - 1] by {}
    }
}

impl JsonValue {
    /// The member named `key` of an object; `None` for a missing member or
    /// a value that is no object.
    pub fn get(&self, key: &str) -> (r: Option<&JsonValue>)
        ensures
            match r {
                Some(v) => spec_get(*self, key@) == Some(*v),
                None => spec_get(*self, key@) is None,
            },
    {
        match self {
            JsonValue::Object(members) => {
                let mut i: usize = 0;
                proof {
                    lemma_member_index(members@, key@);
                }
                while i < members.len()
                    invariant
                        *self == JsonValue::Object(*members),
                        i <= members@.len(),
                        forall|j: int| 0 <= j < i ==> members@[j].0@ != key@,
                        member_index(members@, key@) matches Some(m) ==> 0 <= m < members@.len()
                            && members@[m].0@ == key@ && forall|j: int|
                            0 <= j < m ==> members@[j].0@ != key@,
                        member_index(members@, key@) is None ==> forall|j: int|
                            0 <= j < members@.len() ==> members@[j].0@ != key@,
                    decreases members@.len() - i,
                {
                    if str_eq(members[i].0.as_str(), key) {
                        assert(member_index(members@, key@) == Some(i as int));
                        return Some(&members[i].1);
                    }
                    i += 1;
                }
                None
            },
            _ => None,
        }
    }

    /// The text of a JSON string.
    pub fn as_str(&self) -> (r: Option<&str>)
        ensures
            match r {
                Some(s) => spec_as_str(Some(*self)) == Some(s@),
                None => spec_as_str(Some(*self)) is None,
            },
    {
        match self {
            JsonValue::Str(s) => Some(s.as_str()),
            _ => None,
        }
    }
}

/// How many members or items a value holds directly.
pub open spec fn child_count(v: JsonValue) -> int {
    match v {
        JsonValue::Object(m) => m@.len() as int,
        JsonValue::Array(a) => a@.len() as int,
        _ => 0,
    }
}

/// The `i`-th member value or item of an object or array lies inside it.
pub proof fn lemma_child_smaller(v: JsonValue, i: int)
    requires
        0 <= i < child_count(v),
    ensures
        v matches JsonValue::Object(m) ==> decreases_to!(v => m@[i].1),
        v matches JsonValue::Array(a) ==> decreases_to!(v => a@[i]),
{
    broadcast use vstd::std_specs::vec::group_vec_axioms;

    match v {
        JsonValue::Object(m) => {
            assert(decreases_to!(v => m));
            assert(decreases_to!(m => m@[i]));
            assert(decreases_to!(m@[i] => m@[i].1));
        },
        JsonValue::Array(a) => {
            assert(decreases_to!(v => a));
            assert(decreases_to!(a => a@[i]));
        },
        _ => {},
    }
}

/// `a` and `b` are the same JSON: the same kind, the same scalar, the same
/// member names and items in the same order, each the same JSON.
pub open spec fn same_json(a: JsonValue, b: JsonValue) -> bool
    decreases a, child_count(a) + 1,
{
    match (a, b) {
        (JsonValue::Null, JsonValue::Null) => true,
        (JsonValue::Bool(x), JsonValue::Bool(y)) => x == y,
        (JsonValue::Number(x), JsonValue::Number(y)) => x@ == y@,
        (JsonValue::Str(x), JsonValue::Str(y)) => x@ == y@,
        (JsonValue::Array(xs), JsonValue::Array(ys)) => xs@.len() == ys@.len() && same_children(a, b, 0),
        (JsonValue::Object(xs), JsonValue::Object(ys)) => xs@.len() == ys@.len() && same_children(a, b, 0),
        _ => false,
    }
}

/// The `i`-th items (or members) of `a` and `b` are the same.
pub open spec fn same_child(a: JsonValue, b: JsonValue, i: int) -> bool
    decreases a, 0int,
{
    if 0 <= i < child_count(a) {
        proof {
            lemma_child_smaller(a, i);
        }
        match (a, b) {
            (JsonValue::Array(xs), JsonValue::Array(ys)) => i < ys@.len() && same_json(xs@[i], ys@[i]),
            (JsonValue::Object(xs), JsonValue::Object(ys)) => i < ys@.len() && xs@[i].0@ == ys@[i].0@
                && same_json(xs@[i].1, ys@[i].1),
            _ => false,
        }
    } else {
        true
    }
}

/// The items (or members) of `a` from the `i`-th on are those of `b`.
pub open spec fn same_children(a: JsonValue, b: JsonValue, i: int) -> bool
    decreases a, child_count(a) - i,
{
    if i < 0 || i >= child_count(a) {
        true
    } else {
        same_child(a, b, i) && same_children(a, b, i + 1)
    }
}

/// Children that are pairwise the same from `i` on make `same_children`.
proof fn lemma_same_children(a: JsonValue, b: JsonValue, i: int)
    requires
        0 <= i,
        forall|k: int| i <= k < child_count(a) ==> #[trigger] same_child(a, b, k),
    ensures
        same_children(a, b, i),
    decreases child_count(a) - i,
{
    if i < child_count(a) {
        assert(same_child(a, b, i));
        lemma_same_children(a, b, i + 1);
    }
}

/// A deep copy of `v`.
pub fn json_clone(v: &JsonValue) -> (r: JsonValue)
    ensures
        same_json(r, *v),
    decreases *v,
{
    broadcast use vstd::std_specs::vec::group_vec_axioms;

    match v {
        JsonValue::Null => JsonValue::Null,
        JsonValue::Bool(b) => JsonValue::Bool(*b),
        JsonValue::Number(n) => JsonValue::Number(n.clone()),
        JsonValue::Str(s) => JsonValue::Str(s.clone()),
        JsonValue::Array(items) => {
            let mut out: Vec<JsonValue> = Vec::new();
            let mut i: usize = 0;
            while i < items.len()
                invariant
                    *v == JsonValue::Array(*items),
                    i <= items@.len(),
                    out@.len() == i,
                    forall|k: int| 0 <= k < i ==> same_json(#[trigger] out@[k], items@[k]),
                decreases items@.len() - i,
            {
                proof {
                    assert(decreases_to!(*v => v->Array_0));
                    assert(decreases_to!(*items => items[i as int]));
                }
                let c = json_clone(&items[i]);
                out.push(c);
                i += 1;
            }
            let r = JsonValue::Array(out);
            proof {
                assert forall|k: int| 0 <= k < child_count(r) implies #[trigger] same_child(r, *v, k) by {
                    lemma_child_smaller(r, k);
                }
                lemma_same_children(r, *v, 0);
            }
            r
        },
        JsonValue::Object(members) => {
            let mut out: Vec<(String, JsonValue)> = Vec::new();
            let mut i: usize = 0;
            while i < members.len()
                invariant
                    *v == JsonValue::Object(*members),
                    i <= members@.len(),
                    out@.len() == i,
                    forall|k: int|
                        0 <= k < i ==> (#[trigger] out@[k]).0@ == members@[k].0@ && same_json(out@[k].1, members@[k].1),
                decreases members@.len() - i,
            {
                proof {
                    assert(decreases_to!(*v => v->Object_0));
                    assert(decreases_to!(*members => members[i as int]));
                    assert(decreases_to!(members[i as int] => members[i as int].1));
                }
                let c = json_clone(&members[i].1);
                out.push((members[i].0.clone(), c));
                i += 1;
            }
            let r = JsonValue::Object(out);
            proof {
                assert forall|k: int| 0 <= k < child_count(r) implies #[trigger] same_child(r, *v, k) by {
                    lemma_child_smaller(r, k);
                }
                lemma_same_children(r, *v, 0);
            }
            r
        },
    }
}

impl Clone for JsonValue {
    fn clone(&self) -> (r: Self)
        ensures
            same_json(r, *self),
    {
        json_clone(self)
    }
}

} // verus!

//! A JSON document model: the library's own representation of the values
//! that runtime spec files hold, with its mathematical view.

use vstd::prelude::*;
use vstd::string::*;
use crate::search::{
    first_match, lemma_first_match, lemma_first_match_push, lemma_first_match_unique,
    lemma_first_match_update,
};
use crate::text::str_eq;

verus! {

/// A JSON value. Numbers keep their textual form; an object keeps its
/// members in order as key/value pairs.
#[derive(Debug, PartialEq)]
pub enum JsonValue {
    Null,
    Bool(bool),
    Number(String),
    Str(String),
    Array(Vec<JsonValue>),
    Object(Vec<(String, JsonValue)>),
}

/// The mathematical value of a `JsonValue`: strings become character
/// sequences.
pub enum JsonView {
    Null,
    Bool(bool),
    Number(Seq<char>),
    Str(Seq<char>),
    Array(Seq<JsonView>),
    Object(Seq<(Seq<char>, JsonView)>),
}

pub open spec fn view_value(j: JsonValue) -> JsonView
    decreases j,
{
    match j {
        JsonValue::Null => JsonView::Null,
        JsonValue::Bool(b) => JsonView::Bool(b),
        JsonValue::Number(n) => JsonView::Number(n@),
        JsonValue::Str(s) => JsonView::Str(s@),
        JsonValue::Array(items) => JsonView::Array(view_items(items@)),
        JsonValue::Object(members) => JsonView::Object(view_members(members@)),
    }
}

pub open spec fn view_items(s: Seq<JsonValue>) -> Seq<JsonView>
    decreases s,
{
    if s.len() == 0 {
        Seq::empty()
    } else {
        view_items(s.drop_last()).push(view_value(s.last()))
    }
}

pub open spec fn view_members(s: Seq<(String, JsonValue)>) -> Seq<(Seq<char>, JsonView)>
    decreases s,
{
    if s.len() == 0 {
        Seq::empty()
    } else {
        view_members(s.drop_last()).push((s.last().0@, view_value(s.last().1)))
    }
}

} // verus!

verus! {

impl View for JsonValue {
    type V = JsonView;

    open spec fn view(&self) -> JsonView {
        view_value(*self)
    }
}

/// The view of a list of values, element by element.
pub proof fn lemma_view_items(s: Seq<JsonValue>)
    ensures
        view_items(s).len() == s.len(),
        forall|i: int| 0 <= i < s.len() ==> #[trigger] view_items(s)[i] == view_value(s[i]),
    decreases s.len(),
{
    if s.len() > 0 {
        lemma_view_items(s.drop_last());
    }
}

/// The view of a member list, member by member.
pub proof fn lemma_view_members(s: Seq<(String, JsonValue)>)
    ensures
        view_members(s).len() == s.len(),
        forall|i: int|
            0 <= i < s.len() ==> #[trigger] view_members(s)[i] == (s[i].0@, view_value(s[i].1)),
    decreases s.len(),
{
    if s.len() > 0 {
        lemma_view_members(s.drop_last());
    }
}

/// The predicate "this member has key `key`".
pub open spec fn has_key(key: Seq<char>) -> spec_fn((Seq<char>, JsonView)) -> bool {
    |m: (Seq<char>, JsonView)| m.0 == key
}

/// Position of the first member with key `key`, or the number of members.
pub open spec fn key_pos(m: Seq<(Seq<char>, JsonView)>, key: Seq<char>) -> int {
    first_match(m, has_key(key))
}

/// `j[key]` when `j` is an object holding `key` (first such member).
pub open spec fn lookup(j: JsonView, key: Seq<char>) -> Option<JsonView> {
    match j {
        JsonView::Object(m) => if key_pos(m, key) < m.len() {
            Some(m[key_pos(m, key)].1)
        } else {
            None
        },
        _ => None,
    }
}

/// Whether `j[key] = v` is defined on `j`: only on objects and on `null`.
pub open spec fn indexable(j: JsonView) -> bool {
    j is Null || j is Object
}

/// The effect of the assignment `j[key] = v`: `null` becomes a one-member
/// object; an object gets the member replaced, or appended when absent.
pub open spec fn put(j: JsonView, key: Seq<char>, v: JsonView) -> JsonView {
    match j {
        JsonView::Null => JsonView::Object(seq![(key, v)]),
        JsonView::Object(m) => JsonView::Object(
            if key_pos(m, key) < m.len() {
                m.update(key_pos(m, key), (key, v))
            } else {
                m.push((key, v))
            },
        ),
        _ => j,
    }
}

/// Returns the position of the first member with key `key`, or the number
/// of members.
pub fn member_position(members: &Vec<(String, JsonValue)>, key: &str) -> (r: usize)
    ensures
        r == key_pos(view_members(members@), key@),
{
    let ghost vm = view_members(members@);
    let ghost p = has_key(key@);
    proof { lemma_view_members(members@); }
    let n = members.len();
    let mut i: usize = 0;
    while i < n
        invariant
            n == members@.len(),
            vm == view_members(members@),
            vm.len() == n,
            forall|k: int| 0 <= k < n ==> #[trigger] vm[k] == (members@[k].0@, view_value(members@[k].1)),
            p == has_key(key@),
            i <= n,
            forall|k: int| 0 <= k < i ==> !p(#[trigger] vm[k]),
        decreases n - i,
    {
        if str_eq(members[i].0.as_str(), key) {
            proof {
                assert(p(vm[i as int]));
                lemma_first_match_unique(vm, p, i as int);
            }
            return i;
        }
        proof { assert(!p(vm[i as int])); }
        i = i + 1;
    }
    proof { lemma_first_match_unique(vm, p, i as int); }
    i
}

/// Takes the value of member `i` out, leaving `null` in its place.
pub fn detach(members: &mut Vec<(String, JsonValue)>, i: usize) -> (v: JsonValue)
    requires
        i < old(members).len(),
    ensures
        final(members)@ == old(members)@.update(i as int, (old(members)@[i as int].0, JsonValue::Null)),
        v == old(members)@[i as int].1,
{
    let (k, v) = members.remove(i);
    members.insert(i, (k, JsonValue::Null));
    assert(members@ =~= old(members)@.update(i as int, (old(members)@[i as int].0, JsonValue::Null)));
    v
}

/// Sets the value of member `i`, keeping its key.
pub fn attach(members: &mut Vec<(String, JsonValue)>, i: usize, v: JsonValue)
    requires
        i < old(members).len(),
    ensures
        final(members)@ == old(members)@.update(i as int, (old(members)@[i as int].0, v)),
{
    let (k, _old) = members.remove(i);
    members.insert(i, (k, v));
    assert(members@ =~= old(members)@.update(i as int, (old(members)@[i as int].0, v)));
}

/// Replacing one member changes the view at that member only.
pub proof fn lemma_view_members_update(s: Seq<(String, JsonValue)>, i: int, x: (String, JsonValue))
    requires
        0 <= i < s.len(),
    ensures
        view_members(s.update(i, x)) == view_members(s).update(i, (x.0@, view_value(x.1))),
{
    lemma_view_members(s);
    lemma_view_members(s.update(i, x));
    assert(view_members(s.update(i, x)) =~= view_members(s).update(i, (x.0@, view_value(x.1))));
}

/// Appending one member appends its view.
pub proof fn lemma_view_members_push(s: Seq<(String, JsonValue)>, x: (String, JsonValue))
    ensures
        view_members(s.push(x)) == view_members(s).push((x.0@, view_value(x.1))),
{
    assert(s.push(x).drop_last() =~= s);
}

/// Replacing one element changes the view at that element only.
pub proof fn lemma_view_items_update(s: Seq<JsonValue>, i: int, x: JsonValue)
    requires
        0 <= i < s.len(),
    ensures
        view_items(s.update(i, x)) == view_items(s).update(i, view_value(x)),
{
    lemma_view_items(s);
    lemma_view_items(s.update(i, x));
    assert(view_items(s.update(i, x)) =~= view_items(s).update(i, view_value(x)));
}

/// Appending one element appends its view.
pub proof fn lemma_view_items_push(s: Seq<JsonValue>, x: JsonValue)
    ensures
        view_items(s.push(x)) == view_items(s).push(view_value(x)),
{
    assert(s.push(x).drop_last() =~= s);
}

/// Performs `j[key] = v`, which the caller guarantees to be defined.
pub fn put_member(j: JsonValue, key: &str, v: JsonValue) -> (r: JsonValue)
    requires
        indexable(j@),
    ensures
        r@ == put(j@, key@, v@),
{
    match j {
        JsonValue::Object(members) => {
            let mut members = members;
            let i = member_position(&members, key);
            proof {
                lemma_view_members(members@);
                lemma_first_match(view_members(members@), has_key(key@));
            }
            if i < members.len() {
                let ghost before = members@;
                attach(&mut members, i, v);
                proof {
                    assert(view_members(before)[i as int].0 == key@);
                    lemma_view_members_update(before, i as int, (before[i as int].0, v));
                }
                JsonValue::Object(members)
            } else {
                let ghost before = members@;
                let entry = (String::from_str(key), v);
                let ghost e = entry;
                members.push(entry);
                proof { lemma_view_members_push(before, e); }
                JsonValue::Object(members)
            }
        },
        JsonValue::Null => {
            let mut members: Vec<(String, JsonValue)> = Vec::new();
            let ghost empty = members@;
            let entry = (String::from_str(key), v);
            let ghost e = entry;
            members.push(entry);
            proof {
                lemma_view_members_push(empty, e);
                assert(view_members(empty) =~= Seq::<(Seq<char>, JsonView)>::empty());
            }
            JsonValue::Object(members)
        },
        other => other,
    }
}

} // verus!

verus! {

/// After `j[key] = v`, `j[key]` is `v`.
pub proof fn lemma_put_lookup(j: JsonView, key: Seq<char>, v: JsonView)
    requires
        indexable(j),
    ensures
        lookup(put(j, key, v), key) == Some(v),
        put(j, key, v) is Object,
{
    let p = has_key(key);
    match j {
        JsonView::Null => {
            let m = seq![(key, v)];
            assert(p(m[0]));
            lemma_first_match_unique(m, p, 0);
        },
        JsonView::Object(m) => {
            lemma_first_match(m, p);
            let i = key_pos(m, key);
            if i < m.len() {
                lemma_first_match_update(m, p, i, (key, v));
            } else {
                lemma_first_match_push(m, p, (key, v));
            }
        },
        _ => {},
    }
}

/// `j[key] = v` leaves the other members as they were.
pub proof fn lemma_put_lookup_other(j: JsonView, key: Seq<char>, v: JsonView, other: Seq<char>)
    requires
        indexable(j),
        key != other,
    ensures
        lookup(put(j, key, v), other) == lookup(j, other),
{
    let p = has_key(key);
    let q = has_key(other);
    match j {
        JsonView::Null => {
            let m = seq![(key, v)];
            assert(!q(m[0]));
            lemma_first_match_unique(m, q, 1);
        },
        JsonView::Object(m) => {
            lemma_first_match(m, p);
            lemma_first_match(m, q);
            let i = key_pos(m, key);
            if i < m.len() {
                lemma_first_match_update(m, q, i, (key, v));
                if key_pos(m, other) < m.len() {
                    assert(key_pos(m, other) != i);
                }
            } else {
                lemma_first_match_push(m, q, (key, v));
            }
        },
        _ => {},
    }
}

/// Assigning a member the value it already has changes nothing.
pub proof fn lemma_put_same(j: JsonView, key: Seq<char>, v: JsonView)
    requires
        lookup(j, key) == Some(v),
    ensures
        put(j, key, v) == j,
{
    if let JsonView::Object(m) = j {
        lemma_first_match(m, has_key(key));
        let i = key_pos(m, key);
        assert(m.update(i, (key, v)) =~= m);
    }
}

/// A second assignment of the same member overrides the first.
pub proof fn lemma_put_overwrite(j: JsonView, key: Seq<char>, v1: JsonView, v2: JsonView)
    requires
        indexable(j),
    ensures
        put(put(j, key, v1), key, v2) == put(j, key, v2),
{
    let p = has_key(key);
    match j {
        JsonView::Null => {
            let m = seq![(key, v1)];
            assert(p(m[0]));
            lemma_first_match_unique(m, p, 0);
            assert(m.update(0, (key, v2)) =~= seq![(key, v2)]);
        },
        JsonView::Object(m) => {
            lemma_first_match(m, p);
            let i = key_pos(m, key);
            if i < m.len() {
                lemma_first_match_update(m, p, i, (key, v1));
                assert(m.update(i, (key, v1)).update(i, (key, v2)) =~= m.update(i, (key, v2)));
            } else {
                lemma_first_match_push(m, p, (key, v1));
                assert(m.push((key, v1)).update(m.len() as int, (key, v2)) =~= m.push((key, v2)));
            }
        },
        _ => {},
    }
}

} // verus!

//! Overrides that the engine applies to the default OCI runtime spec that
//! `crun spec` writes: the root filesystem, the process arguments and
//! terminal, and the network namespace.

use vstd::prelude::*;
use vstd::string::*;
use crate::search::{
    first_match, lemma_first_match, lemma_first_match_push, lemma_first_match_unique,
    lemma_first_match_update,
};
use crate::text::{str_eq, string_views};
use crate::json::{
    JsonValue, JsonView, attach, detach, has_key, indexable, key_pos, lemma_put_lookup,
    lemma_put_lookup_other, lemma_put_overwrite, lemma_put_same, lemma_view_items,
    lemma_view_items_push, lemma_view_items_update, lemma_view_members, lemma_view_members_push,
    lemma_view_members_update, lookup, member_position, put, put_member, view_items, view_members,
    view_value,
};

verus! {

/// The view of an optional string.
pub open spec fn opt_view(o: Option<&str>) -> Option<Seq<char>> {
    match o {
        Some(s) => Some(s@),
        None => None,
    }
}

/// The `args` array for a command: one JSON string per word.
pub open spec fn args_value(cmd: Seq<Seq<char>>) -> JsonView {
    JsonView::Array(cmd.map_values(|a: Seq<char>| JsonView::Str(a)))
}

/// `root.path` becomes the image's root filesystem and `root.readonly`
/// becomes `false`.
pub open spec fn root_override(root: JsonView, rootfs: Seq<char>) -> JsonView {
    put(put(root, "path"@, JsonView::Str(rootfs)), "readonly"@, JsonView::Bool(false))
}

/// `process.args` becomes the command when one is given, and
/// `process.terminal` becomes `true`.
pub open spec fn process_override(process: JsonView, cmd: Seq<Seq<char>>) -> JsonView {
    put(
        if cmd.len() > 0 { put(process, "args"@, args_value(cmd)) } else { process },
        "terminal"@,
        JsonView::Bool(true),
    )
}

/// A namespace entry whose `type` is the string `"network"`.
pub open spec fn is_network(ns: JsonView) -> bool {
    lookup(ns, "type"@) == Some(JsonView::Str("network"@))
}

/// Position of the first network namespace entry, or the number of entries.
pub open spec fn network_pos(nss: Seq<JsonView>) -> int {
    first_match(nss, |ns: JsonView| is_network(ns))
}

/// A fresh network namespace entry joining the namespace at `path`.
pub open spec fn network_entry(path: Seq<char>) -> JsonView {
    JsonView::Object(
        seq![("type"@, JsonView::Str("network"@)), ("path"@, JsonView::Str(path))],
    )
}

/// The first network namespace entry gets `path`; without one, a new
/// network entry is appended.
pub open spec fn namespaces_override(nss: Seq<JsonView>, path: Seq<char>) -> Seq<JsonView> {
    if network_pos(nss) < nss.len() {
        nss.update(network_pos(nss), put(nss[network_pos(nss)], "path"@, JsonView::Str(path)))
    } else {
        nss.push(network_entry(path))
    }
}

/// `linux.namespaces`, when it is an array, gets the network namespace.
pub open spec fn linux_override(linux: JsonView, path: Seq<char>) -> JsonView {
    match lookup(linux, "namespaces"@) {
        Some(JsonView::Array(nss)) => put(
            linux,
            "namespaces"@,
            JsonView::Array(namespaces_override(nss, path)),
        ),
        _ => linux,
    }
}

/// One of the three edits, on the value of a top-level member.
pub enum Override {
    Root(Seq<char>),
    Process(Seq<Seq<char>>),
    Linux(Seq<char>),
}

pub open spec fn override_value(v: JsonView, o: Override) -> JsonView {
    match o {
        Override::Root(rootfs) => root_override(v, rootfs),
        Override::Process(cmd) => process_override(v, cmd),
        Override::Linux(path) => linux_override(v, path),
    }
}

/// Whether the edit is defined on the value: the root and process edits
/// assign members, which needs an object or `null`.
pub open spec fn override_defined(v: JsonView, o: Override) -> bool {
    match o {
        Override::Linux(_) => true,
        _ => indexable(v),
    }
}

/// The member `key`, when present, is replaced by its edited value.
pub open spec fn override_member(j: JsonView, key: Seq<char>, o: Override) -> JsonView {
    match lookup(j, key) {
        Some(v) => put(j, key, override_value(v, o)),
        None => j,
    }
}

/// The runtime spec after all overrides: root, then process, then (with a
/// network namespace path) linux.
pub open spec fn spec_with_overrides(
    spec: JsonView,
    rootfs: Seq<char>,
    cmd: Seq<Seq<char>>,
    netns: Option<Seq<char>>,
) -> JsonView {
    let with_root = override_member(spec, "root"@, Override::Root(rootfs));
    let with_process = override_member(with_root, "process"@, Override::Process(cmd));
    match netns {
        Some(path) => override_member(with_process, "linux"@, Override::Linux(path)),
        None => with_process,
    }
}

/// The overrides are defined on `spec`: a `root` or `process` member, when
/// present, is an object or `null` (assigning a member of anything else is
/// refused).
pub open spec fn overridable(spec: JsonView) -> bool {
    &&& (lookup(spec, "root"@) matches Some(r) ==> indexable(r))
    &&& (lookup(spec, "process"@) matches Some(p) ==> indexable(p))
}

/// Editing member `k1` leaves the lookup of another key unchanged.
pub proof fn lemma_lookup_frame(j: JsonView, k1: Seq<char>, o: Override, k2: Seq<char>)
    requires
        k1 != k2,
    ensures
        lookup(override_member(j, k1, o), k2) == lookup(j, k2),
{
    if let JsonView::Object(m) = j {
        let i = key_pos(m, k1);
        lemma_first_match(m, has_key(k1));
        if i < m.len() {
            let x = (k1, override_value(m[i].1, o));
            assert(has_key(k2)(x) == has_key(k2)(m[i]));
            lemma_first_match_update(m, has_key(k2), i, x);
            lemma_first_match(m, has_key(k2));
            let q = key_pos(m, k2);
            if q < m.len() {
                assert(q != i);
            }
        }
    }
}

/// The executable counterpart of an `Override`.
enum Edit<'a> {
    Root(&'a str),
    Process(&'a Vec<String>),
    Linux(&'a str),
}

impl<'a> View for Edit<'a> {
    type V = Override;

    closed spec fn view(&self) -> Override {
        match self {
            Edit::Root(p) => Override::Root(p@),
            Edit::Process(c) => Override::Process(string_views(c@)),
            Edit::Linux(p) => Override::Linux(p@),
        }
    }
}

/// Builds the `args` array for a command.
fn args_array(cmd: &Vec<String>) -> (r: JsonValue)
    ensures
        r@ == args_value(string_views(cmd@)),
{
    let mut items: Vec<JsonValue> = Vec::new();
    let n = cmd.len();
    let mut i: usize = 0;
    while i < n
        invariant
            n == cmd@.len(),
            i <= n,
            items@.len() == i,
            forall|k: int| 0 <= k < i ==> #[trigger] items@[k] == JsonValue::Str(cmd@[k]),
        decreases n - i,
    {
        items.push(JsonValue::Str(cmd[i].clone()));
        i = i + 1;
    }
    proof {
        lemma_view_items(items@);
        assert(view_items(items@) =~= string_views(cmd@).map_values(|a: Seq<char>| JsonView::Str(a)));
    }
    JsonValue::Array(items)
}

/// Whether a namespace entry is the network one.
fn is_network_entry(ns: &JsonValue) -> (b: bool)
    ensures
        b == is_network(ns@),
{
    match ns {
        JsonValue::Object(members) => {
            let i = member_position(members, "type");
            proof {
                lemma_view_members(members@);
                lemma_first_match(view_members(members@), has_key("type"@));
            }
            if i < members.len() {
                match &members[i].1 {
                    JsonValue::Str(s) => str_eq(s.as_str(), "network"),
                    _ => false,
                }
            } else {
                false
            }
        },
        _ => false,
    }
}

/// A fresh network namespace entry.
fn new_network_entry(path: &str) -> (r: JsonValue)
    ensures
        r@ == network_entry(path@),
{
    let mut members: Vec<(String, JsonValue)> = Vec::new();
    let ghost m0 = members@;
    let e1 = (String::from_str("type"), JsonValue::Str(String::from_str("network")));
    let ghost g1 = e1;
    members.push(e1);
    let ghost m1 = members@;
    let e2 = (String::from_str("path"), JsonValue::Str(String::from_str(path)));
    let ghost g2 = e2;
    members.push(e2);
    proof {
        lemma_view_members_push(m0, g1);
        lemma_view_members_push(m1, g2);
        assert(view_members(m0) =~= Seq::<(Seq<char>, JsonView)>::empty());
        assert(view_members(members@) =~= seq![
            ("type"@, JsonView::Str("network"@)),
            ("path"@, JsonView::Str(path@)),
        ]);
    }
    JsonValue::Object(members)
}

/// Takes element `i` out of a list, leaving `null` in its place.
fn detach_item(items: &mut Vec<JsonValue>, i: usize) -> (v: JsonValue)
    requires
        i < old(items).len(),
    ensures
        final(items)@ == old(items)@.update(i as int, JsonValue::Null),
        v == old(items)@[i as int],
{
    let v = items.remove(i);
    items.insert(i, JsonValue::Null);
    assert(items@ =~= old(items)@.update(i as int, JsonValue::Null));
    v
}

/// Points the first network namespace entry at `path`, or appends one.
fn namespaces_with_network(nss: Vec<JsonValue>, path: &str) -> (r: Vec<JsonValue>)
    ensures
        view_items(r@) == namespaces_override(view_items(nss@), path@),
{
    let mut nss = nss;
    let ghost vn = view_items(nss@);
    let ghost p = |ns: JsonView| is_network(ns);
    proof { lemma_view_items(nss@); }
    let n = nss.len();
    let mut i: usize = 0;
    while i < n
        invariant
            n == nss@.len(),
            vn == view_items(nss@),
            vn.len() == n,
            forall|k: int| 0 <= k < n ==> #[trigger] vn[k] == view_value(nss@[k]),
            p == (|ns: JsonView| is_network(ns)),
            i <= n,
            forall|k: int| 0 <= k < i ==> !p(#[trigger] vn[k]),
        ensures
            i <= n,
            forall|k: int| 0 <= k < i ==> !p(#[trigger] vn[k]),
            i < n ==> p(vn[i as int]),
        decreases n - i,
    {
        if is_network_entry(&nss[i]) {
            break;
        }
        i = i + 1;
    }
    proof {
        lemma_first_match_unique(vn, p, i as int);
    }
    if i < n {
        let ghost before = nss@;
        let entry = detach_item(&mut nss, i);
        let updated = put_member(entry, "path", JsonValue::Str(String::from_str(path)));
        let ghost u = updated;
        nss.set(i, updated);
        proof {
            assert(nss@ =~= before.update(i as int, u));
            lemma_view_items_update(before, i as int, u);
        }
        nss
    } else {
        let ghost before = nss@;
        let entry = new_network_entry(path);
        let ghost e = entry;
        nss.push(entry);
        proof { lemma_view_items_push(before, e); }
        nss
    }
}

/// Applies an edit to a member value on which it is defined.
fn edit_value(v: JsonValue, e: &Edit) -> (r: JsonValue)
    requires
        override_defined(v@, e@),
    ensures
        r@ == override_value(v@, e@),
{
    match e {
        Edit::Root(rootfs) => {
            let v1 = put_member(v, "path", JsonValue::Str(String::from_str(rootfs)));
            put_member(v1, "readonly", JsonValue::Bool(false))
        },
        Edit::Process(cmd) => {
            let v1 = if cmd.len() > 0 {
                put_member(v, "args", args_array(cmd))
            } else {
                v
            };
            put_member(v1, "terminal", JsonValue::Bool(true))
        },
        Edit::Linux(path) => {
            match v {
                JsonValue::Object(members) => {
                    let mut members = members;
                    let i = member_position(&members, "namespaces");
                    proof {
                        lemma_view_members(members@);
                        lemma_first_match(view_members(members@), has_key("namespaces"@));
                    }
                    if i < members.len() {
                        let ghost before = members@;
                        let inner = detach(&mut members, i);
                        let replaced = match inner {
                            JsonValue::Array(nss) => JsonValue::Array(namespaces_with_network(nss, path)),
                            other => other,
                        };
                        let ghost x = replaced;
                        attach(&mut members, i, replaced);
                        proof {
                            assert(members@ =~= before.update(i as int, (before[i as int].0, x)));
                            lemma_view_members_update(before, i as int, (before[i as int].0, x));
                            assert(view_members(before)[i as int].0 == "namespaces"@);
                            if !(before[i as int].1 is Array) {
                                assert(view_members(members@) =~= view_members(before));
                            }
                        }
                        JsonValue::Object(members)
                    } else {
                        JsonValue::Object(members)
                    }
                },
                other => other,
            }
        },
    }
}

/// Edits the member `key` of `j`, when present.
fn edit_member(j: JsonValue, key: &str, e: &Edit) -> (r: JsonValue)
    requires
        lookup(j@, key@) matches Some(v) ==> override_defined(v, e@),
    ensures
        r@ == override_member(j@, key@, e@),
{
    match j {
        JsonValue::Object(members) => {
            let mut members = members;
            let i = member_position(&members, key);
            proof {
                lemma_view_members(members@);
                lemma_first_match(view_members(members@), has_key(key@));
            }
            if i < members.len() {
                let ghost before = members@;
                let inner = detach(&mut members, i);
                let edited = edit_value(inner, e);
                let ghost x = edited;
                attach(&mut members, i, edited);
                proof {
                    assert(members@ =~= before.update(i as int, (before[i as int].0, x)));
                    lemma_view_members_update(before, i as int, (before[i as int].0, x));
                    assert(view_members(before)[i as int].0 == key@);
                }
                JsonValue::Object(members)
            } else {
                JsonValue::Object(members)
            }
        },
        other => other,
    }
}

/// Applies the engine's overrides to a runtime spec: `root.path` becomes
/// `rootfs` and `root.readonly` false; `process.args` becomes `cmd` when it
/// is not empty and `process.terminal` true; with `netns`, the first network
/// entry of `linux.namespaces` gets that path, or a network entry with it is
/// appended. Members that are absent are left absent.
pub fn apply_spec_overrides(
    spec: JsonValue,
    rootfs: &str,
    cmd: &Vec<String>,
    netns: Option<&str>,
) -> (r: JsonValue)
    requires
        overridable(spec@),
    ensures
        r@ == spec_with_overrides(spec@, rootfs@, string_views(cmd@), opt_view(netns)),
{
    proof {
        reveal_strlit("root");
        reveal_strlit("process");
        reveal_strlit("linux");
        assert("root"@.len() != "process"@.len());
        lemma_lookup_frame(spec@, "root"@, Override::Root(rootfs@), "process"@);
    }
    let with_root = edit_member(spec, "root", &Edit::Root(rootfs));
    let with_process = edit_member(with_root, "process", &Edit::Process(cmd));
    match netns {
        Some(path) => edit_member(with_process, "linux", &Edit::Linux(path)),
        None => with_process,
    }
}

} // verus!

verus! {

/// Whether a value may have members assigned.
fn is_indexable(j: &JsonValue) -> (b: bool)
    ensures
        b == indexable(j@),
{
    match j {
        JsonValue::Null | JsonValue::Object(_) => true,
        _ => false,
    }
}

/// The value of the member `key` of an object, when present.
fn member_value<'a>(j: &'a JsonValue, key: &str) -> (r: Option<&'a JsonValue>)
    ensures
        match r {
            Some(v) => lookup(j@, key@) == Some(v@),
            None => lookup(j@, key@) is None,
        },
{
    match j {
        JsonValue::Object(members) => {
            let i = member_position(members, key);
            proof { lemma_view_members(members@); }
            if i < members.len() {
                Some(&members[i].1)
            } else {
                None
            }
        },
        _ => None,
    }
}

/// Whether the overrides are defined on `spec` (see `overridable`).
pub fn is_overridable(spec: &JsonValue) -> (b: bool)
    ensures
        b == overridable(spec@),
{
    let root_ok = match member_value(spec, "root") {
        Some(r) => is_indexable(r),
        None => true,
    };
    let process_ok = match member_value(spec, "process") {
        Some(p) => is_indexable(p),
        None => true,
    };
    root_ok && process_ok
}

} // verus!

verus! {

/// The member names involved are distinct.
proof fn lemma_names_distinct()
    ensures
        "root"@ != "process"@,
        "root"@ != "linux"@,
        "process"@ != "linux"@,
        "path"@ != "readonly"@,
        "args"@ != "terminal"@,
        "path"@ != "type"@,
        "namespaces"@ != "path"@,
{
    reveal_strlit("root");
    reveal_strlit("process");
    reveal_strlit("linux");
    reveal_strlit("path");
    reveal_strlit("readonly");
    reveal_strlit("args");
    reveal_strlit("terminal");
    reveal_strlit("type");
    reveal_strlit("namespaces");
    assert("root"@.len() != "process"@.len());
    assert("root"@.len() != "linux"@.len());
    assert("process"@.len() != "linux"@.len());
    assert("path"@.len() != "readonly"@.len());
    assert("args"@.len() != "terminal"@.len());
    assert("path"@[0] != "type"@[0]);
    assert("namespaces"@.len() != "path"@.len());
}

/// The root override sets `path` and `readonly`, and applying it again
/// changes nothing.
proof fn lemma_root_override(r: JsonView, rootfs: Seq<char>)
    requires
        indexable(r),
    ensures
        root_override(r, rootfs) is Object,
        lookup(root_override(r, rootfs), "path"@) == Some(JsonView::Str(rootfs)),
        lookup(root_override(r, rootfs), "readonly"@) == Some(JsonView::Bool(false)),
        root_override(root_override(r, rootfs), rootfs) == root_override(r, rootfs),
{
    lemma_names_distinct();
    let x1 = put(r, "path"@, JsonView::Str(rootfs));
    lemma_put_lookup(r, "path"@, JsonView::Str(rootfs));
    let x = put(x1, "readonly"@, JsonView::Bool(false));
    lemma_put_lookup(x1, "readonly"@, JsonView::Bool(false));
    lemma_put_lookup_other(x1, "readonly"@, JsonView::Bool(false), "path"@);
    lemma_put_same(x, "path"@, JsonView::Str(rootfs));
    lemma_put_same(x, "readonly"@, JsonView::Bool(false));
}

/// The process override sets `terminal` and, for a non-empty command,
/// `args`; applying it again changes nothing.
proof fn lemma_process_override(p: JsonView, cmd: Seq<Seq<char>>)
    requires
        indexable(p),
    ensures
        process_override(p, cmd) is Object,
        lookup(process_override(p, cmd), "terminal"@) == Some(JsonView::Bool(true)),
        cmd.len() > 0 ==> lookup(process_override(p, cmd), "args"@) == Some(args_value(cmd)),
        cmd.len() == 0 ==> lookup(process_override(p, cmd), "args"@) == lookup(p, "args"@),
        process_override(process_override(p, cmd), cmd) == process_override(p, cmd),
{
    lemma_names_distinct();
    let x1 = if cmd.len() > 0 { put(p, "args"@, args_value(cmd)) } else { p };
    if cmd.len() > 0 {
        lemma_put_lookup(p, "args"@, args_value(cmd));
    }
    let x = put(x1, "terminal"@, JsonView::Bool(true));
    lemma_put_lookup(x1, "terminal"@, JsonView::Bool(true));
    lemma_put_lookup_other(x1, "terminal"@, JsonView::Bool(true), "args"@);
    if cmd.len() > 0 {
        lemma_put_same(x, "args"@, args_value(cmd));
    }
    lemma_put_same(x, "terminal"@, JsonView::Bool(true));
}

/// A fresh network entry is a network entry whose `path` is the given one.
proof fn lemma_network_entry(path: Seq<char>)
    ensures
        is_network(network_entry(path)),
        lookup(network_entry(path), "path"@) == Some(JsonView::Str(path)),
{
    lemma_names_distinct();
    let m = seq![("type"@, JsonView::Str("network"@)), ("path"@, JsonView::Str(path))];
    assert(has_key("type"@)(m[0]));
    lemma_first_match_unique(m, has_key("type"@), 0);
    assert(!has_key("path"@)(m[0]));
    assert(has_key("path"@)(m[1]));
    lemma_first_match_unique(m, has_key("path"@), 1);
}

/// After the namespace override, the first network entry has `path`, and
/// applying the override again changes nothing.
proof fn lemma_namespaces_override(nss: Seq<JsonView>, path: Seq<char>)
    ensures
        network_pos(namespaces_override(nss, path)) < namespaces_override(nss, path).len(),
        lookup(
            namespaces_override(nss, path)[network_pos(namespaces_override(nss, path))],
            "path"@,
        ) == Some(JsonView::Str(path)),
        namespaces_override(namespaces_override(nss, path), path) == namespaces_override(nss, path),
{
    lemma_names_distinct();
    let p = |ns: JsonView| is_network(ns);
    lemma_first_match(nss, p);
    let i = network_pos(nss);
    let v = JsonView::Str(path);
    if i < nss.len() {
        let e = nss[i];
        assert(p(e));
        assert(indexable(e));
        let e2 = put(e, "path"@, v);
        lemma_put_lookup(e, "path"@, v);
        lemma_put_lookup_other(e, "path"@, v, "type"@);
        assert(p(e2));
        lemma_first_match_update(nss, p, i, e2);
        let n1 = nss.update(i, e2);
        lemma_put_same(e2, "path"@, v);
        assert(n1.update(i, put(n1[i], "path"@, v)) =~= n1);
    } else {
        let e = network_entry(path);
        lemma_network_entry(path);
        assert(p(e));
        lemma_first_match_push(nss, p, e);
        let n1 = nss.push(e);
        lemma_put_same(e, "path"@, v);
        assert(n1.update(nss.len() as int, put(n1[nss.len() as int], "path"@, v)) =~= n1);
    }
}

/// The linux override is stable under repetition, and gives the network
/// namespace its path when `namespaces` is an array.
proof fn lemma_linux_override(l: JsonView, path: Seq<char>)
    ensures
        linux_override(linux_override(l, path), path) == linux_override(l, path),
        lookup(l, "namespaces"@) matches Some(JsonView::Array(nss)) ==> lookup(
            linux_override(l, path),
            "namespaces"@,
        ) == Some(JsonView::Array(namespaces_override(nss, path))),
{
    if let Some(JsonView::Array(nss)) = lookup(l, "namespaces"@) {
        assert(l is Object);
        let v = JsonView::Array(namespaces_override(nss, path));
        let l1 = put(l, "namespaces"@, v);
        lemma_put_lookup(l, "namespaces"@, v);
        lemma_namespaces_override(nss, path);
        lemma_put_overwrite(l, "namespaces"@, v, v);
    }
}

/// Every edit is stable under repetition.
proof fn lemma_override_value_stable(v: JsonView, o: Override)
    requires
        override_defined(v, o),
    ensures
        override_defined(override_value(v, o), o),
        override_value(override_value(v, o), o) == override_value(v, o),
{
    match o {
        Override::Root(rootfs) => lemma_root_override(v, rootfs),
        Override::Process(cmd) => lemma_process_override(v, cmd),
        Override::Linux(path) => lemma_linux_override(v, path),
    }
}

/// The edited member holds the edited value.
proof fn lemma_override_member_lookup(j: JsonView, key: Seq<char>, o: Override)
    ensures
        lookup(override_member(j, key, o), key) == match lookup(j, key) {
            Some(v) => Some(override_value(v, o)),
            None => None,
        },
{
    if let Some(v) = lookup(j, key) {
        assert(j is Object);
        lemma_put_lookup(j, key, override_value(v, o));
    }
}

/// Editing a member a second time, when the edit is stable, changes
/// nothing.
proof fn lemma_override_member_stable(j: JsonView, key: Seq<char>, o: Override)
    requires
        lookup(j, key) matches Some(v) ==> override_defined(v, o) && override_value(v, o) == v,
    ensures
        override_member(j, key, o) == j,
{
    if let Some(v) = lookup(j, key) {
        lemma_put_same(j, key, v);
    }
}

/// The overrides, applied to a spec on which they are defined, leave it
/// one on which they are defined, and applying them a second time with the
/// same arguments changes nothing.
pub proof fn law_overrides_idempotent(
    spec: JsonView,
    rootfs: Seq<char>,
    cmd: Seq<Seq<char>>,
    netns: Option<Seq<char>>,
)
    requires
        overridable(spec),
    ensures
        overridable(spec_with_overrides(spec, rootfs, cmd, netns)),
        spec_with_overrides(spec_with_overrides(spec, rootfs, cmd, netns), rootfs, cmd, netns)
            == spec_with_overrides(spec, rootfs, cmd, netns),
{
    lemma_names_distinct();
    let ro = Override::Root(rootfs);
    let po = Override::Process(cmd);
    let s1 = override_member(spec, "root"@, ro);
    let s2 = override_member(s1, "process"@, po);
    let s = spec_with_overrides(spec, rootfs, cmd, netns);
    lemma_override_member_lookup(spec, "root"@, ro);
    lemma_lookup_frame(spec, "root"@, ro, "process"@);
    lemma_override_member_lookup(s1, "process"@, po);
    lemma_lookup_frame(s1, "process"@, po, "root"@);
    if let Some(r) = lookup(spec, "root"@) {
        lemma_override_value_stable(r, ro);
    }
    if let Some(p) = lookup(spec, "process"@) {
        lemma_override_value_stable(p, po);
    }
    match netns {
        Some(path) => {
            let lo = Override::Linux(path);
            lemma_lookup_frame(s2, "linux"@, lo, "root"@);
            lemma_lookup_frame(s2, "linux"@, lo, "process"@);
            lemma_override_member_lookup(s2, "linux"@, lo);
            lemma_lookup_frame(spec, "root"@, ro, "linux"@);
            lemma_lookup_frame(s1, "process"@, po, "linux"@);
            if let Some(l) = lookup(s2, "linux"@) {
                lemma_override_value_stable(l, lo);
            }
            lemma_override_member_stable(s, "root"@, ro);
            lemma_override_member_stable(s, "process"@, po);
            lemma_override_member_stable(s, "linux"@, lo);
        },
        None => {
            lemma_override_member_stable(s, "root"@, ro);
            lemma_override_member_stable(s, "process"@, po);
        },
    }
}

/// What the overrides establish: `root` and `process` are present after
/// exactly when before; `root.path` is the root filesystem and
/// `root.readonly` false; `process.terminal` is true and `process.args` the
/// command when one is given; with a namespace path and a `namespaces`
/// array, the first network namespace entry has that path; and every other
/// top-level member is untouched.
pub proof fn law_overrides_establish(
    spec: JsonView,
    rootfs: Seq<char>,
    cmd: Seq<Seq<char>>,
    netns: Option<Seq<char>>,
    other: Seq<char>,
)
    requires
        overridable(spec),
    ensures
        ({
            let s = spec_with_overrides(spec, rootfs, cmd, netns);
            &&& (lookup(s, "root"@) is Some) == (lookup(spec, "root"@) is Some)
            &&& (lookup(s, "process"@) is Some) == (lookup(spec, "process"@) is Some)
            &&& (lookup(s, "root"@) matches Some(r) ==> {
                &&& lookup(r, "path"@) == Some(JsonView::Str(rootfs))
                &&& lookup(r, "readonly"@) == Some(JsonView::Bool(false))
            })
            &&& (lookup(s, "process"@) matches Some(p) ==> {
                &&& lookup(p, "terminal"@) == Some(JsonView::Bool(true))
                &&& cmd.len() > 0 ==> lookup(p, "args"@) == Some(args_value(cmd))
            })
            &&& (netns matches Some(path) ==> (lookup(spec, "linux"@) matches Some(l) ==> (lookup(
                l,
                "namespaces"@,
            ) matches Some(JsonView::Array(_)) ==> (lookup(s, "linux"@) matches Some(l2)
                && lookup(l2, "namespaces"@) matches Some(JsonView::Array(nss2))
                && network_pos(nss2) < nss2.len() && lookup(nss2[network_pos(nss2)], "path"@)
                == Some(JsonView::Str(path))))))
            &&& (other != "root"@ && other != "process"@ && other != "linux"@ ==> lookup(s, other)
                == lookup(spec, other))
        }),
{
    lemma_names_distinct();
    let ro = Override::Root(rootfs);
    let po = Override::Process(cmd);
    let s1 = override_member(spec, "root"@, ro);
    let s2 = override_member(s1, "process"@, po);
    lemma_override_member_lookup(spec, "root"@, ro);
    lemma_lookup_frame(spec, "root"@, ro, "process"@);
    lemma_override_member_lookup(s1, "process"@, po);
    lemma_lookup_frame(s1, "process"@, po, "root"@);
    if let Some(r) = lookup(spec, "root"@) {
        lemma_root_override(r, rootfs);
    }
    if let Some(p) = lookup(spec, "process"@) {
        lemma_process_override(p, cmd);
    }
    if other != "root"@ && other != "process"@ && other != "linux"@ {
        lemma_lookup_frame(spec, "root"@, ro, other);
        lemma_lookup_frame(s1, "process"@, po, other);
    }
    if let Some(path) = netns {
        let lo = Override::Linux(path);
        lemma_lookup_frame(s2, "linux"@, lo, "root"@);
        lemma_lookup_frame(s2, "linux"@, lo, "process"@);
        lemma_override_member_lookup(s2, "linux"@, lo);
        lemma_lookup_frame(spec, "root"@, ro, "linux"@);
        lemma_lookup_frame(s1, "process"@, po, "linux"@);
        if other != "root"@ && other != "process"@ && other != "linux"@ {
            lemma_lookup_frame(s2, "linux"@, lo, other);
        }
        if let Some(l) = lookup(spec, "linux"@) {
            lemma_linux_override(l, path);
            if let Some(JsonView::Array(nss)) = lookup(l, "namespaces"@) {
                lemma_namespaces_override(nss, path);
            }
        }
    }
}

/// Where the three edited members end up after the overrides.
proof fn lemma_override_lookups(
    spec: JsonView,
    rootfs: Seq<char>,
    cmd: Seq<Seq<char>>,
    netns: Option<Seq<char>>,
)
    ensures
        ({
            let s = spec_with_overrides(spec, rootfs, cmd, netns);
            &&& lookup(s, "root"@) == match lookup(spec, "root"@) {
                Some(r) => Some(root_override(r, rootfs)),
                None => None,
            }
            &&& lookup(s, "process"@) == match lookup(spec, "process"@) {
                Some(p) => Some(process_override(p, cmd)),
                None => None,
            }
            &&& lookup(s, "linux"@) == match (netns, lookup(spec, "linux"@)) {
                (Some(path), Some(l)) => Some(linux_override(l, path)),
                _ => lookup(spec, "linux"@),
            }
        }),
{
    lemma_names_distinct();
    let ro = Override::Root(rootfs);
    let po = Override::Process(cmd);
    let s1 = override_member(spec, "root"@, ro);
    let s2 = override_member(s1, "process"@, po);
    lemma_override_member_lookup(spec, "root"@, ro);
    lemma_lookup_frame(spec, "root"@, ro, "process"@);
    lemma_lookup_frame(spec, "root"@, ro, "linux"@);
    lemma_override_member_lookup(s1, "process"@, po);
    lemma_lookup_frame(s1, "process"@, po, "root"@);
    lemma_lookup_frame(s1, "process"@, po, "linux"@);
    if let Some(path) = netns {
        let lo = Override::Linux(path);
        lemma_lookup_frame(s2, "linux"@, lo, "root"@);
        lemma_lookup_frame(s2, "linux"@, lo, "process"@);
        lemma_override_member_lookup(s2, "linux"@, lo);
    }
}

/// The overrides change nothing but what they are for: in `root` only
/// `path` and `readonly`, in `process` only `terminal` and (when a command
/// is given) `args`, in `linux` only `namespaces`, and `linux` not at all
/// without a namespace path or when its `namespaces` is not an array. No
/// edited member appears or disappears.
pub proof fn law_overrides_touch_only_their_members(
    spec: JsonView,
    rootfs: Seq<char>,
    cmd: Seq<Seq<char>>,
    netns: Option<Seq<char>>,
    k: Seq<char>,
)
    requires
        overridable(spec),
    ensures
        ({
            let s = spec_with_overrides(spec, rootfs, cmd, netns);
            &&& (lookup(s, "linux"@) is Some) == (lookup(spec, "linux"@) is Some)
            &&& lookup(spec, "root"@) matches Some(r) ==> (lookup(s, "root"@) matches Some(r2) && (k
                != "path"@ && k != "readonly"@ ==> lookup(r2, k) == lookup(r, k)))
            &&& lookup(spec, "process"@) matches Some(p) ==> (lookup(s, "process"@) matches Some(p2)
                && (k != "args"@ && k != "terminal"@ ==> lookup(p2, k) == lookup(p, k)) && (cmd.len()
                == 0 ==> lookup(p2, "args"@) == lookup(p, "args"@)))
            &&& netns is None ==> lookup(s, "linux"@) == lookup(spec, "linux"@)
            &&& lookup(spec, "linux"@) matches Some(l) ==> (lookup(s, "linux"@) matches Some(l2) && (k
                != "namespaces"@ ==> lookup(l2, k) == lookup(l, k)) && (!(lookup(l, "namespaces"@) matches Some(
                JsonView::Array(_),
            )) ==> l2 == l))
        }),
{
    lemma_names_distinct();
    lemma_override_lookups(spec, rootfs, cmd, netns);
    if let Some(r) = lookup(spec, "root"@) {
        if k != "path"@ && k != "readonly"@ {
            let x1 = put(r, "path"@, JsonView::Str(rootfs));
            lemma_put_lookup(r, "path"@, JsonView::Str(rootfs));
            lemma_put_lookup_other(x1, "readonly"@, JsonView::Bool(false), k);
            lemma_put_lookup_other(r, "path"@, JsonView::Str(rootfs), k);
        }
    }
    if let Some(p) = lookup(spec, "process"@) {
        let x1 = if cmd.len() > 0 { put(p, "args"@, args_value(cmd)) } else { p };
        if cmd.len() > 0 {
            lemma_put_lookup(p, "args"@, args_value(cmd));
        }
        if k != "args"@ && k != "terminal"@ {
            lemma_put_lookup_other(x1, "terminal"@, JsonView::Bool(true), k);
            if cmd.len() > 0 {
                lemma_put_lookup_other(p, "args"@, args_value(cmd), k);
            }
        }
        if cmd.len() == 0 {
            lemma_put_lookup_other(p, "terminal"@, JsonView::Bool(true), "args"@);
        }
    }
    if let (Some(path), Some(l)) = (netns, lookup(spec, "linux"@)) {
        if let Some(JsonView::Array(nss)) = lookup(l, "namespaces"@) {
            assert(l is Object);
            if k != "namespaces"@ {
                lemma_put_lookup_other(l, "namespaces"@, JsonView::Array(namespaces_override(nss, path)), k);
            }
        }
    }
}

/// The container joins the network namespace at `path`: in `namespaces`,
/// the first entry of type `network` gets `path` (its other members, and
/// all other entries, stay as they were); without such an entry, one
/// `{"type": "network", "path": path}` is appended after the others.
pub proof fn law_overrides_join_network_namespace(
    spec: JsonView,
    rootfs: Seq<char>,
    cmd: Seq<Seq<char>>,
    path: Seq<char>,
    l: JsonView,
    nss: Seq<JsonView>,
    i: int,
    j: int,
    k: Seq<char>,
)
    requires
        overridable(spec),
        lookup(spec, "linux"@) == Some(l),
        lookup(l, "namespaces"@) == Some(JsonView::Array(nss)),
    ensures
        lookup(spec_with_overrides(spec, rootfs, cmd, Some(path)), "linux"@) matches Some(l2)
            && lookup(l2, "namespaces"@) matches Some(JsonView::Array(nss2)) && {
            &&& (0 <= i < nss.len() && lookup(nss[i], "type"@) == Some(JsonView::Str("network"@))
                && (forall|m: int| 0 <= m < i ==> lookup(#[trigger] nss[m], "type"@) != Some(
                JsonView::Str("network"@)))) ==> {
                &&& nss2.len() == nss.len()
                &&& lookup(nss2[i], "path"@) == Some(JsonView::Str(path))
                &&& k != "path"@ ==> lookup(nss2[i], k) == lookup(nss[i], k)
                &&& 0 <= j < nss.len() && j != i ==> nss2[j] == nss[j]
            }
            &&& (forall|m: int| 0 <= m < nss.len() ==> lookup(#[trigger] nss[m], "type"@) != Some(
                JsonView::Str("network"@))) ==> {
                &&& nss2.len() == nss.len() + 1
                &&& 0 <= j < nss.len() ==> nss2[j] == nss[j]
                &&& nss2[nss.len() as int] == JsonView::Object(
                    seq![("type"@, JsonView::Str("network"@)), ("path"@, JsonView::Str(path))],
                )
            }
        },
{
    lemma_names_distinct();
    lemma_override_lookups(spec, rootfs, cmd, Some(path));
    lemma_linux_override(l, path);
    let p = |ns: JsonView| is_network(ns);
    lemma_first_match(nss, p);
    if 0 <= i < nss.len() && lookup(nss[i], "type"@) == Some(JsonView::Str("network"@)) && (forall|
        m: int,
    | 0 <= m < i ==> lookup(#[trigger] nss[m], "type"@) != Some(JsonView::Str("network"@))) {
        assert forall|m: int| 0 <= m < i implies !p(#[trigger] nss[m]) by {
            assert(lookup(nss[m], "type"@) != Some(JsonView::Str("network"@)));
        }
        assert(p(nss[i]));
        lemma_first_match_unique(nss, p, i);
        let e = nss[i];
        assert(e is Object);
        lemma_put_lookup(e, "path"@, JsonView::Str(path));
        if k != "path"@ {
            lemma_put_lookup_other(e, "path"@, JsonView::Str(path), k);
        }
    }
    if forall|m: int| 0 <= m < nss.len() ==> lookup(#[trigger] nss[m], "type"@) != Some(
        JsonView::Str("network"@),
    ) {
        assert forall|m: int| 0 <= m < nss.len() implies !p(#[trigger] nss[m]) by {
            assert(lookup(nss[m], "type"@) != Some(JsonView::Str("network"@)));
        }
        lemma_first_match_unique(nss, p, nss.len() as int);
    }
}

} // verus!

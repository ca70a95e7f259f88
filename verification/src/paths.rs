//! The file system and namespace locations that the engine uses, and the
//! path joining rule they are built with.

use vstd::prelude::*;
use vstd::string::*;
use crate::text::{decimal, decimal_string};

verus! {

/// Joining `part` onto `base`: an absolute `part` replaces `base`;
/// otherwise a `/` separates them unless `base` is empty or already ends
/// with one.
pub open spec fn path_join(base: Seq<char>, part: Seq<char>) -> Seq<char> {
    if part.len() > 0 && part[0] == '/' {
        part
    } else if base.len() == 0 || base.last() == '/' {
        base + part
    } else {
        base + seq!['/'] + part
    }
}

/// Joins `part` onto `base` by the rule of `path_join`.
pub fn join_path(base: &str, part: &str) -> (r: String)
    ensures
        r@ == path_join(base@, part@),
{
    let part_len = part.unicode_len();
    if part_len > 0 && part.get_char(0) == '/' {
        return String::from_str(part);
    }
    let base_len = base.unicode_len();
    let mut r = String::from_str(base);
    if !(base_len == 0 || base.get_char(base_len - 1) == '/') {
        proof { reveal_strlit("/"); }
        r.append("/");
    }
    r.append(part);
    proof {
        if !(base@.len() == 0 || base@.last() == '/') {
            assert("/"@ =~= seq!['/']);
        }
    }
    r
}

/// The home directory: the value of `HOME` when it is set, else `/root`.
pub open spec fn home_or_default(home: Option<Seq<char>>) -> Seq<char> {
    match home {
        Some(h) => h,
        None => "/root"@,
    }
}

/// Resolves the home directory from the value of `HOME`, if any.
pub fn resolve_home(home: Option<String>) -> (r: String)
    ensures
        r@ == home_or_default(match home { Some(h) => Some(h@), None => None }),
{
    match home {
        Some(h) => h,
        None => String::from_str("/root"),
    }
}

/// `<home>/.rustpod/images`, where pulled images are unpacked.
pub open spec fn images_root_path(home: Seq<char>) -> Seq<char> {
    path_join(path_join(home, ".rustpod"@), "images"@)
}

/// `<home>/.rustpod/images/<image>/<tag>`, the root filesystem of an image.
pub open spec fn image_dir_path(home: Seq<char>, image: Seq<char>, tag: Seq<char>) -> Seq<char> {
    path_join(path_join(images_root_path(home), image), tag)
}

/// The directory holding all pulled images.
pub fn images_root(home: &str) -> (r: String)
    ensures
        r@ == images_root_path(home@),
{
    let d = join_path(home, ".rustpod");
    join_path(d.as_str(), "images")
}

/// The directory holding the unpacked layers of `image` at `tag`.
pub fn image_dir(home: &str, image: &str, tag: &str) -> (r: String)
    ensures
        r@ == image_dir_path(home@, image@, tag@),
{
    let root = images_root(home);
    let d = join_path(root.as_str(), image);
    join_path(d.as_str(), tag)
}

/// `/run/rustpod/bundles/<id>`, the OCI bundle of a container.
pub open spec fn bundle_dir_path(id: Seq<char>) -> Seq<char> {
    path_join("/run/rustpod/bundles"@, id)
}

/// The OCI bundle directory of container `id`.
pub fn bundle_dir(id: &str) -> (r: String)
    ensures
        r@ == bundle_dir_path(id@),
{
    join_path("/run/rustpod/bundles", id)
}

/// `rustpod-<id>`, the name of the network namespace of a container.
pub open spec fn netns_name_of(id: Seq<char>) -> Seq<char> {
    "rustpod-"@ + id
}

/// `/var/run/netns/rustpod-<id>`, where that namespace is mounted.
pub open spec fn netns_path_of(id: Seq<char>) -> Seq<char> {
    "/var/run/netns/"@ + netns_name_of(id)
}

/// The network namespace name of container `id`.
pub fn netns_name(id: &str) -> (r: String)
    ensures
        r@ == netns_name_of(id@),
{
    let mut r = String::from_str("rustpod-");
    r.append(id);
    r
}

/// The mount path of the network namespace of container `id`.
pub fn netns_path(id: &str) -> (r: String)
    ensures
        r@ == netns_path_of(id@),
{
    let name = netns_name(id);
    let mut r = String::from_str("/var/run/netns/");
    r.append(name.as_str());
    assert(r@ =~= netns_path_of(id@));
    r
}

/// `rustpod-<seconds>`, the identifier of a container started at that time
/// (seconds since the Unix epoch).
pub open spec fn container_id_of(secs: nat) -> Seq<char> {
    "rustpod-"@ + decimal(secs)
}

/// The identifier of a container started `secs` seconds after the epoch.
pub fn container_id(secs: u64) -> (r: String)
    ensures
        r@ == container_id_of(secs as nat),
{
    let digits = decimal_string(secs);
    let mut r = String::from_str("rustpod-");
    r.append(digits.as_str());
    r
}

} // verus!

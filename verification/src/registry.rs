//! Docker Hub registry conventions: image names, request URLs, manifest
//! resolution, local image references and the messages of the registry
//! commands.

use vstd::prelude::*;
use vstd::string::*;
use crate::search::{first_match, lemma_first_match, lemma_first_match_unique};
use crate::text::{contains_char, find_char, first_index, lemma_first_index, str_eq};

verus! {

/// The platform a manifest list entry is built for.
#[derive(Debug, PartialEq)]
pub struct Platform {
    pub architecture: Option<String>,
    pub os: Option<String>,
}

/// An entry of a manifest list: the digest of a per-platform manifest.
#[derive(Debug, PartialEq)]
pub struct ManifestReference {
    pub digest: String,
    pub platform: Option<Platform>,
}

/// A filesystem layer of an image manifest.
#[derive(Debug, PartialEq)]
pub struct Layer {
    pub digest: String,
}

/// What the registry answers for a manifest request: a list of
/// per-platform manifests, or a manifest with its layers.
#[derive(Debug, PartialEq)]
pub enum RegistryResponse {
    ManifestList { manifests: Vec<ManifestReference> },
    Manifest { layers: Vec<Layer> },
}

/// Images without a namespace live under `library/` on Docker Hub.
pub open spec fn full_name_of(image: Seq<char>) -> Seq<char> {
    if image.contains('/') {
        image
    } else {
        "library/"@ + image
    }
}

/// The repository path of `image` on Docker Hub.
pub fn full_image_name(image: &str) -> (r: String)
    ensures
        r@ == full_name_of(image@),
{
    if contains_char(image, '/') {
        String::from_str(image)
    } else {
        let mut r = String::from_str("library/");
        r.append(image);
        r
    }
}

/// The token endpoint granting pull access to a repository.
pub open spec fn auth_url_of(full_image: Seq<char>) -> Seq<char> {
    "https://auth.docker.io/token?service=registry.docker.io&scope=repository:"@ + full_image
        + ":pull"@
}

/// The URL to request a pull token for `full_image`.
pub fn auth_url(full_image: &str) -> (r: String)
    ensures
        r@ == auth_url_of(full_image@),
{
    let mut r = String::from_str(
        "https://auth.docker.io/token?service=registry.docker.io&scope=repository:",
    );
    r.append(full_image);
    r.append(":pull");
    r
}

/// The manifest endpoint for a tag or digest.
pub open spec fn manifest_url_of(full_image: Seq<char>, reference: Seq<char>) -> Seq<char> {
    "https://registry-1.docker.io/v2/"@ + full_image + "/manifests/"@ + reference
}

/// The URL of the manifest of `full_image` at `reference`.
pub fn manifest_url(full_image: &str, reference: &str) -> (r: String)
    ensures
        r@ == manifest_url_of(full_image@, reference@),
{
    let mut r = String::from_str("https://registry-1.docker.io/v2/");
    r.append(full_image);
    r.append("/manifests/");
    r.append(reference);
    r
}

/// The blob endpoint for a layer digest.
pub open spec fn blob_url_of(full_image: Seq<char>, digest: Seq<char>) -> Seq<char> {
    "https://registry-1.docker.io/v2/"@ + full_image + "/blobs/"@ + digest
}

/// The URL of the blob with `digest` in `full_image`.
pub fn blob_url(full_image: &str, digest: &str) -> (r: String)
    ensures
        r@ == blob_url_of(full_image@, digest@),
{
    let mut r = String::from_str("https://registry-1.docker.io/v2/");
    r.append(full_image);
    r.append("/blobs/");
    r.append(digest);
    r
}

/// The `Authorization` header value for a token.
pub open spec fn bearer_of(token: Seq<char>) -> Seq<char> {
    "Bearer "@ + token
}

/// The `Authorization` header value carrying `token`.
pub fn bearer(token: &str) -> (r: String)
    ensures
        r@ == bearer_of(token@),
{
    let mut r = String::from_str("Bearer ");
    r.append(token);
    r
}

/// The manifest media types the engine accepts.
pub open spec fn manifest_accept_of() -> Seq<char> {
    "application/vnd.docker.distribution.manifest.v2+json, application/vnd.docker.distribution.manifest.list.v2+json, application/vnd.oci.image.manifest.v1+json, application/vnd.oci.image.index.v1+json"@
}

/// The `Accept` header value of manifest requests.
pub fn manifest_accept() -> (r: String)
    ensures
        r@ == manifest_accept_of(),
{
    String::from_str(
        "application/vnd.docker.distribution.manifest.v2+json, application/vnd.docker.distribution.manifest.list.v2+json, application/vnd.oci.image.manifest.v1+json, application/vnd.oci.image.index.v1+json",
    )
}

/// An optional string equal to `s`.
pub open spec fn opt_is(o: Option<String>, s: Seq<char>) -> bool {
    o matches Some(x) && x@ == s
}

/// A manifest list entry for linux on amd64, the platform the engine runs.
pub open spec fn is_target_platform(m: ManifestReference) -> bool {
    m.platform matches Some(p) && opt_is(p.architecture, "amd64"@) && opt_is(p.os, "linux"@)
}

/// Position of the first linux/amd64 entry, or the number of entries.
pub open spec fn target_pos(ms: Seq<ManifestReference>) -> int {
    first_match(ms, |m: ManifestReference| is_target_platform(m))
}

/// The digest to fetch from a non-empty manifest list: the first
/// linux/amd64 entry's, or else the first entry's.
pub open spec fn chosen_digest(ms: Seq<ManifestReference>) -> Seq<char> {
    if target_pos(ms) < ms.len() {
        ms[target_pos(ms)].digest@
    } else {
        ms[0].digest@
    }
}

/// The message when a manifest list has no entries.
pub open spec fn empty_list_message() -> Seq<char> {
    "Empty manifest list"@
}

/// Whether an optional string equals `s`.
fn opt_eq(o: &Option<String>, s: &str) -> (b: bool)
    ensures
        b == opt_is(*o, s@),
{
    match o {
        Some(x) => str_eq(x.as_str(), s),
        None => false,
    }
}

/// Whether a manifest list entry is for linux on amd64.
fn target_platform(m: &ManifestReference) -> (b: bool)
    ensures
        b == is_target_platform(*m),
{
    match &m.platform {
        Some(p) => opt_eq(&p.architecture, "amd64") && opt_eq(&p.os, "linux"),
        None => false,
    }
}

/// Picks the digest to fetch from a manifest list: the first linux/amd64
/// entry's, else the first entry's; an empty list is an error.
pub fn select_platform_digest(manifests: &Vec<ManifestReference>) -> (r: Result<String, String>)
    ensures
        match r {
            Ok(d) => manifests@.len() > 0 && d@ == chosen_digest(manifests@),
            Err(e) => manifests@.len() == 0 && e@ == empty_list_message(),
        },
{
    let n = manifests.len();
    if n == 0 {
        return Err(String::from_str("Empty manifest list"));
    }
    let ghost p = |m: ManifestReference| is_target_platform(m);
    let mut i: usize = 0;
    while i < n
        invariant
            n == manifests@.len(),
            i <= n,
            p == (|m: ManifestReference| is_target_platform(m)),
            forall|k: int| 0 <= k < i ==> !p(#[trigger] manifests@[k]),
        ensures
            i <= n,
            forall|k: int| 0 <= k < i ==> !p(#[trigger] manifests@[k]),
            i < n ==> p(manifests@[i as int]),
        decreases n - i,
    {
        if target_platform(&manifests[i]) {
            break;
        }
        i = i + 1;
    }
    proof { lemma_first_match_unique(manifests@, p, i as int); }
    if i < n {
        Ok(manifests[i].digest.clone())
    } else {
        Ok(manifests[0].digest.clone())
    }
}

/// The repository of a local image reference `repo[:tag[:...]]`: the text
/// before the first `:`.
pub open spec fn ref_repo(image: Seq<char>) -> Seq<char> {
    image.take(first_index(image, ':'))
}

/// The tag of a local image reference: the text between the first and the
/// second `:`, or `latest` when there is no `:`.
pub open spec fn ref_tag(image: Seq<char>) -> Seq<char> {
    let i = first_index(image, ':');
    if i < image.len() {
        let rest = image.skip(i + 1);
        rest.take(first_index(rest, ':'))
    } else {
        "latest"@
    }
}

/// Splits a local image reference into repository and tag.
pub fn parse_image_ref(image: &str) -> (r: (String, String))
    ensures
        r.0@ == ref_repo(image@),
        r.1@ == ref_tag(image@),
{
    let n = image.unicode_len();
    let i = find_char(image, ':');
    proof { lemma_first_index(image@, ':'); }
    let repo = String::from_str(image.substring_char(0, i));
    assert(image@.subrange(0, i as int) =~= image@.take(i as int));
    if i < n {
        let rest = image.substring_char(i + 1, n);
        assert(rest@ =~= image@.skip(i + 1));
        let j = find_char(rest, ':');
        proof { lemma_first_index(rest@, ':'); }
        let tag = String::from_str(rest.substring_char(0, j));
        assert(rest@.subrange(0, j as int) =~= rest@.take(j as int));
        (repo, tag)
    } else {
        (repo, String::from_str("latest"))
    }
}

/// The default registry of `login` and `logout`.
pub open spec fn server_or_default(server: Option<String>) -> Seq<char> {
    match server {
        Some(s) => s@,
        None => "docker.io"@,
    }
}

/// What `login` reports (credentials are not stored).
pub fn login_message(server: Option<String>) -> (r: String)
    ensures
        r@ == "Login Succeeded for "@ + server_or_default(server),
{
    let mut r = String::from_str("Login Succeeded for ");
    match server {
        Some(s) => r.append(s.as_str()),
        None => r.append("docker.io"),
    }
    r
}

/// What `logout` reports.
pub fn logout_message(server: Option<String>) -> (r: String)
    ensures
        r@ == "Removing login credentials for "@ + server_or_default(server),
{
    let mut r = String::from_str("Removing login credentials for ");
    match server {
        Some(s) => r.append(s.as_str()),
        None => r.append("docker.io"),
    }
    r
}

} // verus!

verus! {

/// The digest chosen from a manifest list is the digest of one of its
/// entries; when some entry is for linux/amd64 it is the first such
/// entry's.
pub proof fn law_chosen_digest(ms: Seq<ManifestReference>)
    requires
        ms.len() > 0,
    ensures
        exists|k: int| 0 <= k < ms.len() && chosen_digest(ms) == #[trigger] ms[k].digest@,
        (exists|k: int| 0 <= k < ms.len() && #[trigger] is_target_platform(ms[k])) ==> {
            &&& target_pos(ms) < ms.len()
            &&& is_target_platform(ms[target_pos(ms)])
            &&& chosen_digest(ms) == ms[target_pos(ms)].digest@
            &&& forall|j: int| 0 <= j < target_pos(ms) ==> !is_target_platform(#[trigger] ms[j])
        },
{
    let p = |m: ManifestReference| is_target_platform(m);
    lemma_first_match(ms, p);
    let t = target_pos(ms);
    if t < ms.len() {
        assert(chosen_digest(ms) == ms[t].digest@);
    } else {
        assert(chosen_digest(ms) == ms[0].digest@);
    }
    if exists|k: int| 0 <= k < ms.len() && #[trigger] is_target_platform(ms[k]) {
        let k = choose|k: int| 0 <= k < ms.len() && #[trigger] is_target_platform(ms[k]);
        assert(p(ms[k]));
        assert forall|j: int| 0 <= j < t implies !is_target_platform(#[trigger] ms[j]) by {
            assert(!p(ms[j]));
        }
    }
}

} // verus!

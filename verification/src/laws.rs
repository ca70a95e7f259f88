//! Properties that relate several parts of the engine: where a run looks
//! for its image and where a pull puts it, what image removal removes, and
//! how names and identifiers are formed.

use vstd::prelude::*;
use crate::paths::{
    bundle_dir_path, container_id_of, image_dir_path, images_root_path, netns_name_of, path_join,
};
use crate::images::{image_listing_of, listing_row, listing_rows, repo_rows};
use crate::registry::{full_name_of, ref_repo, ref_tag};
use crate::run::{RunActionView, RunEvent, RunPhase, RunState, run_action_of, run_tag};
use crate::text::{decimal, first_index, lemma_decimal_injective, lemma_decimal_len, lemma_first_index};

verus! {

/// When a run finds its image missing, it pulls exactly the image and tag
/// whose pull target is the root filesystem the run uses.
pub proof fn law_run_pulls_into_its_rootfs(home: Seq<char>, s: RunState)
    requires
        s.phase == RunPhase::AwaitImageCheck,
        s.rootfs@ == image_dir_path(home, s.image@, run_tag()),
    ensures
        run_action_of(s, RunEvent::ImageChecked(false)) matches RunActionView::PullImage { image, tag, .. }
            && image_dir_path(home, image, tag) == s.rootfs@,
{
}

/// The first `:` of `repo:tag` is the one after `repo` when `repo` holds
/// none.
proof fn lemma_split_at_colon(repo: Seq<char>, tag: Seq<char>)
    requires
        !repo.contains(':'),
        !tag.contains(':'),
    ensures
        first_index(repo + ":"@ + tag, ':') == repo.len(),
        ref_repo(repo + ":"@ + tag) == repo,
        ref_tag(repo + ":"@ + tag) == tag,
{
    reveal_strlit(":");
    let s = repo + ":"@ + tag;
    lemma_first_index(s, ':');
    lemma_first_index(repo, ':');
    lemma_first_index(tag, ':');
    let i = first_index(s, ':');
    assert(s[repo.len() as int] == ':');
    if i < repo.len() {
        assert(s[i] == repo[i]);
    }
    assert(s.take(repo.len() as int) =~= repo);
    assert(s.skip(repo.len() + 1 as int) =~= tag);
    assert(tag.take(tag.len() as int) =~= tag);
}

/// Removing the local image `repo:tag` (or `repo`, meaning tag `latest`)
/// removes the directory that pulling `repo` at that tag fills, when
/// neither name holds a `:`.
pub proof fn law_remove_undoes_pull(home: Seq<char>, repo: Seq<char>, tag: Seq<char>)
    requires
        !repo.contains(':'),
        !tag.contains(':'),
    ensures
        path_join(path_join(images_root_path(home), ref_repo(repo + ":"@ + tag)), ref_tag(repo + ":"@ + tag))
            == image_dir_path(home, repo, tag),
        path_join(path_join(images_root_path(home), ref_repo(repo)), ref_tag(repo))
            == image_dir_path(home, repo, "latest"@),
{
    lemma_split_at_colon(repo, tag);
    lemma_first_index(repo, ':');
    assert(repo.take(repo.len() as int) =~= repo);
}

/// Qualifying an image name is idempotent: a qualified name stays as it is.
pub proof fn law_full_name_idempotent(image: Seq<char>)
    ensures
        full_name_of(full_name_of(image)) == full_name_of(image),
{
    reveal_strlit("library/");
    if !image.contains('/') {
        let q = "library/"@ + image;
        assert(q[7] == '/');
    }
}

/// Each repository's line for each of its tags is among the listing's
/// lines.
proof fn lemma_listing_rows_contain(repos: Seq<(Seq<char>, Seq<Seq<char>>)>, i: int, j: int)
    requires
        0 <= i < repos.len(),
        0 <= j < repos[i].1.len(),
    ensures
        listing_rows(repos).contains(listing_row(repos[i].0, repos[i].1[j])),
    decreases repos.len(),
{
    let rest = listing_rows(repos.drop_last());
    let last = repo_rows(repos.last().0, repos.last().1);
    assert(listing_rows(repos) == rest + last);
    if i == repos.len() - 1 {
        assert(last[j] == listing_row(repos[i].0, repos[i].1[j]));
        assert((rest + last)[rest.len() + j] == last[j]);
    } else {
        assert(repos.drop_last()[i] == repos[i]);
        lemma_listing_rows_contain(repos.drop_last(), i, j);
        let k = choose|k: int| 0 <= k < rest.len() && rest[k] == listing_row(repos[i].0, repos[i].1[j]);
        assert((rest + last)[k] == rest[k]);
    }
}

/// Every listing line is some repository's line for one of its tags.
proof fn lemma_listing_rows_from(repos: Seq<(Seq<char>, Seq<Seq<char>>)>, k: int)
    requires
        0 <= k < listing_rows(repos).len(),
    ensures
        exists|i: int, j: int|
            0 <= i < repos.len() && 0 <= j < repos[i].1.len() && #[trigger] listing_rows(repos)[k]
                == repos[i].0 + "\t"@ + repos[i].1[j],
    decreases repos.len(),
{
    let rest = listing_rows(repos.drop_last());
    let last = repo_rows(repos.last().0, repos.last().1);
    assert(listing_rows(repos) == rest + last);
    let n = repos.len() - 1;
    if k < rest.len() {
        lemma_listing_rows_from(repos.drop_last(), k);
        let (i, j) = choose|i: int, j: int|
            0 <= i < repos.drop_last().len() && 0 <= j < repos.drop_last()[i].1.len()
                && #[trigger] rest[k] == repos.drop_last()[i].0 + "\t"@ + repos.drop_last()[i].1[j];
        assert(repos.drop_last()[i] == repos[i]);
        assert(listing_rows(repos)[k] == repos[i].0 + "\t"@ + repos[i].1[j]);
    } else {
        let j = k - rest.len();
        assert(last[j] == listing_row(repos[n].0, repos[n].1[j]));
        assert(listing_rows(repos)[k] == repos[n].0 + "\t"@ + repos[n].1[j]);
    }
}

/// The image listing is the header `REPOSITORY<TAB>TAG` followed only by
/// lines `repo<TAB>tag` for repositories and tags that were read.
pub proof fn law_listing_lines(repos: Seq<(Seq<char>, Seq<Seq<char>>)>, k: int)
    ensures
        image_listing_of(repos)[0] == "REPOSITORY\tTAG"@,
        1 <= k < image_listing_of(repos).len() ==> exists|i: int, j: int|
            0 <= i < repos.len() && 0 <= j < repos[i].1.len() && #[trigger] image_listing_of(repos)[k]
                == repos[i].0 + "\t"@ + repos[i].1[j],
{
    let rows = listing_rows(repos);
    if 1 <= k < image_listing_of(repos).len() {
        assert(image_listing_of(repos)[k] == rows[k - 1]);
        lemma_listing_rows_from(repos, k - 1);
        let (i, j) = choose|i: int, j: int|
            0 <= i < repos.len() && 0 <= j < repos[i].1.len() && #[trigger] rows[k - 1] == repos[i].0
                + "\t"@ + repos[i].1[j];
        assert(image_listing_of(repos)[k] == repos[i].0 + "\t"@ + repos[i].1[j]);
    }
}

/// A listing made after pulling `image` at `tag` shows the line
/// `image<TAB>tag`: the pull fills `<images>/<image>/<tag>`, which, for
/// names without `/`, is the tag directory `tag` of the repository
/// directory `image` that the listing reads.
pub proof fn law_listing_shows_pulled_image(
    home: Seq<char>,
    image: Seq<char>,
    tag: Seq<char>,
    repos: Seq<(Seq<char>, Seq<Seq<char>>)>,
    tags: Seq<Seq<char>>,
)
    requires
        !image.contains('/'),
        !tag.contains('/'),
        repos.contains((image, tags)),
        tags.contains(tag),
    ensures
        image_dir_path(home, image, tag) == path_join(path_join(images_root_path(home), image), tag),
        image_listing_of(repos).contains(listing_row(image, tag)),
        listing_row(image, tag) == image + "\t"@ + tag,
{
    let i = choose|i: int| 0 <= i < repos.len() && repos[i] == (image, tags);
    let j = choose|j: int| 0 <= j < tags.len() && tags[j] == tag;
    lemma_listing_rows_contain(repos, i, j);
    let rows = listing_rows(repos);
    let k = choose|k: int| 0 <= k < rows.len() && rows[k] == listing_row(image, tag);
    assert(image_listing_of(repos)[k + 1] == rows[k]);
}

} // verus!

verus! {

/// Containers started at different seconds get different identifiers, and
/// so different bundles and network namespaces.
pub proof fn law_container_ids_distinct(a: nat, b: nat)
    requires
        a != b,
    ensures
        container_id_of(a) != container_id_of(b),
        bundle_dir_path(container_id_of(a)) != bundle_dir_path(container_id_of(b)),
        netns_name_of(container_id_of(a)) != netns_name_of(container_id_of(b)),
{
    let p = "rustpod-"@;
    if container_id_of(a) == container_id_of(b) {
        assert(decimal(a) =~= container_id_of(a).skip(p.len() as int));
        assert(decimal(b) =~= container_id_of(b).skip(p.len() as int));
        lemma_decimal_injective(a, b);
    }
    lemma_decimal_len(a);
    lemma_decimal_len(b);
    if bundle_dir_path(container_id_of(a)) == bundle_dir_path(container_id_of(b)) {
        let base = "/run/rustpod/bundles"@;
        reveal_strlit("/run/rustpod/bundles");
        reveal_strlit("rustpod-");
        assert(container_id_of(a)[0] == 'r');
        assert(container_id_of(b)[0] == 'r');
        assert(base.last() != '/');
        let ja = bundle_dir_path(container_id_of(a));
        assert(ja =~= base + seq!['/'] + container_id_of(a));
        assert(container_id_of(a) =~= ja.skip(base.len() + 1 as int));
        assert(container_id_of(b) =~= ja.skip(base.len() + 1 as int));
    }
    if netns_name_of(container_id_of(a)) == netns_name_of(container_id_of(b)) {
        assert(container_id_of(a) =~= netns_name_of(container_id_of(a)).skip(p.len() as int));
        assert(container_id_of(b) =~= netns_name_of(container_id_of(b)).skip(p.len() as int));
    }
}

} // verus!

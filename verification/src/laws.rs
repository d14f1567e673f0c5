//! The library's laws, stated once and proved against the same spec
//! functions its contracts use.

use vstd::prelude::*;

use crate::errors::NotifyError;
use crate::json::json_nested_str_field;
use crate::json::json_str_field;
use crate::notifier::Source;
use crate::notifier::spec_extracted;
use crate::notifier::spec_guard_passes;
use crate::notifier::spec_refreshes_marker;
use crate::notifier::spec_should_notify;
use crate::split::split_slash;
use crate::split::lemma_split_slash_step;
use crate::split::lemma_split_slash_whole;

verus! {

/// A fetched version that differs from the current one always calls for a
/// notification: the comparison is plain string inequality, with no
/// semantic-version ordering, so a downgrade triggers it too.
pub proof fn lemma_version_difference_notifies(current: Seq<char>, fetched: Seq<char>)
    requires
        current != fetched,
    ensures
        spec_should_notify(current, fetched),
{
}

/// With no marker file the guard always passes, whatever the interval: a
/// first-ever run always fetches.
pub proof fn lemma_first_run_always_checks(interval_secs: u64)
    ensures
        spec_guard_passes(None, interval_secs),
{
}

/// A marker no older than the interval short-circuits the run; once the
/// interval has elapsed, the guard lets the fetch proceed.
pub proof fn lemma_guard_interval(elapsed_nanos: u128, interval_secs: u64)
    ensures
        elapsed_nanos <= interval_secs * 1_000_000_000 ==> !spec_guard_passes(
            Some(elapsed_nanos),
            interval_secs,
        ),
        elapsed_nanos > interval_secs * 1_000_000_000 ==> spec_guard_passes(
            Some(elapsed_nanos),
            interval_secs,
        ),
{
}

/// A failed fetch never refreshes the marker, so the next run retries at
/// once; a fetch whose body yields a version always refreshes it, whether or
/// not that version differs from the current one.
pub proof fn lemma_marker_refresh_policy(source: Source, fetch: Result<Seq<char>, NotifyError>)
    ensures
        fetch is Err ==> !spec_refreshes_marker(source, fetch),
        (fetch matches Ok(body) && spec_extracted(source, body) is Some)
            ==> spec_refreshes_marker(source, fetch),
        (fetch matches Ok(body) && spec_extracted(source, body) is None)
            ==> !spec_refreshes_marker(source, fetch),
{
}

/// A GitHub tag with a leading `v` is compared and displayed without it.
pub proof fn lemma_github_tag_normalized(body: Seq<char>, tag: Seq<char>)
    requires
        json_str_field(body, "tag_name"@) == Some(tag),
        tag.len() > 0,
        tag[0] == 'v',
    ensures
        spec_extracted(Source::GitHub, body) == Some(tag.subrange(1, tag.len() as int)),
{
}

/// A crates.io `max_stable_version` value is used verbatim: no prefix is
/// stripped from it.
pub proof fn lemma_crates_io_version_verbatim(body: Seq<char>, version: Seq<char>)
    requires
        json_nested_str_field(body, "crate"@, "max_stable_version"@) == Some(version),
    ensures
        spec_extracted(Source::CratesIO, body) == Some(version),
{
}

/// A repository URL of the shape `https://github.com/{owner}/{repo}`, with
/// owner and repository free of slashes, splits into exactly the five
/// segments the URL parser expects: owner at index 3, repository at index 4.
pub proof fn lemma_github_url_segments(owner: Seq<char>, repo: Seq<char>)
    requires
        forall|j: int| 0 <= j < owner.len() ==> owner[j] != '/',
        forall|j: int| 0 <= j < repo.len() ==> repo[j] != '/',
    ensures
        split_slash("https://github.com/"@ + owner + "/"@ + repo) == seq![
            "https:"@,
            ""@,
            "github.com"@,
            owner,
            repo,
        ],
{
    reveal_strlit("https://github.com/");
    reveal_strlit("https:");
    reveal_strlit("");
    reveal_strlit("github.com");
    reveal_strlit("/");
    let u = "https://github.com/"@ + owner + "/"@ + repo;
    let h = "https:"@;
    let e = ""@;
    let g = "github.com"@;
    let tail2 = owner + seq!['/'] + repo;
    let tail3 = g + seq!['/'] + tail2;
    let tail4 = e + seq!['/'] + tail3;
    assert(u =~= h + seq!['/'] + tail4);
    assert forall|j: int| 0 <= j < h.len() implies h[j] != '/' by {}
    assert forall|j: int| 0 <= j < g.len() implies g[j] != '/' by {}
    lemma_split_slash_step(h, tail4);
    lemma_split_slash_step(e, tail3);
    lemma_split_slash_step(g, tail2);
    lemma_split_slash_step(owner, repo);
    lemma_split_slash_whole(repo);
    assert(split_slash(u) =~= seq![h, e, g, owner, repo]);
}

} // verus!

//! Laws of the image cache.

use crate::cache::cache_key_of;
use crate::cache::resolve_step;
use crate::cache::DirOutcomeView;
use crate::cache::ResolveActionView;
use crate::cache::ResolveEventView;
use crate::cache::ResolveState;
use crate::newsapi::NewsAPIErrorView;
use crate::trusted::is_known_image;
use vstd::prelude::*;

verus! {

/// The action on which the resolution of `url` ends when the attempt to
/// create the directory ends in `dir`, the probe reports `exists`, reading
/// the entry gives `read` and downloading the URL gives `fetched`. Only
/// what the resolution asks for is looked at: `read` on a hit, `fetched` on
/// a miss, neither where the directory cannot be had.
pub open spec fn resolve_run(
    url: Seq<char>,
    dir: DirOutcomeView,
    exists: bool,
    read: Option<Seq<u8>>,
    fetched: Option<Seq<u8>>,
) -> ResolveActionView {
    let (after_dir, first) = resolve_step(
        url,
        ResolveState::CreatingDir,
        ResolveEventView::DirCreated(dir),
    );
    if after_dir == ResolveState::Finished {
        first
    } else {
        let (after_probe, _) = resolve_step(url, after_dir, ResolveEventView::Probed(exists));
        let answer = if exists {
            ResolveEventView::FileRead(read)
        } else {
            ResolveEventView::Fetched(fetched)
        };
        resolve_step(url, after_probe, answer).1
    }
}

/// Every resolution ends by delivering bytes or by failing, whatever the
/// outside world reports.
pub proof fn resolution_delivers_or_fails(
    url: Seq<char>,
    dir: DirOutcomeView,
    exists: bool,
    read: Option<Seq<u8>>,
    fetched: Option<Seq<u8>>,
)
    ensures
        resolve_run(url, dir, exists, read, fetched) is Deliver || resolve_run(
            url,
            dir,
            exists,
            read,
            fetched,
        ) is Fail,
{
}

/// Resolving a URL a second time, after the write that the first
/// resolution asked for has landed, delivers the very bytes that the first
/// one delivered.
///
/// The first resolution is a miss that delivers: it hands out the
/// downloaded bytes and stores them under the key of the URL. The second
/// finds the entry, reads what was stored, and hands it out unchanged,
/// without storing anything.
pub proof fn second_resolution_delivers_same_bytes(
    url: Seq<char>,
    first_dir: DirOutcomeView,
    second_dir: DirOutcomeView,
    downloaded: Seq<u8>,
)
    requires
        first_dir != DirOutcomeView::Failed,
        second_dir != DirOutcomeView::Failed,
        is_known_image(downloaded),
    ensures
        forall|read: Option<Seq<u8>>|
            resolve_run(url, first_dir, false, read, Some(downloaded))
                == (ResolveActionView::Deliver {
                bytes: downloaded,
                store_as: Some(cache_key_of(url)),
            }),
        forall|fetched: Option<Seq<u8>>|
            resolve_run(url, second_dir, true, Some(downloaded), fetched)
                == (ResolveActionView::Deliver { bytes: downloaded, store_as: None }),
{
}

/// Without the cache directory nothing is resolved: a failure to create
/// it ends the resolution in an IO failure, whatever else might have been
/// reported.
pub proof fn directory_failure_ends_the_resolution(
    url: Seq<char>,
    exists: bool,
    read: Option<Seq<u8>>,
    fetched: Option<Seq<u8>>,
)
    ensures
        resolve_run(url, DirOutcomeView::Failed, exists, read, fetched) == ResolveActionView::Fail(
            NewsAPIErrorView::IO,
        ),
{
}

/// Entries are written once: a resolution asks for a write only after the
/// probe found no entry, and then under the key of its URL and with the
/// very bytes it delivers.
pub proof fn only_a_miss_is_stored(
    url: Seq<char>,
    dir: DirOutcomeView,
    exists: bool,
    read: Option<Seq<u8>>,
    fetched: Option<Seq<u8>>,
)
    ensures
        resolve_run(url, dir, exists, read, fetched) matches ResolveActionView::Deliver {
            bytes,
            store_as: Some(name),
        } ==> !exists && name == cache_key_of(url) && fetched == Some(bytes) && is_known_image(
            bytes,
        ),
{
}

/// A download that is not a known image is neither delivered nor stored.
pub proof fn invalid_download_is_dropped(url: Seq<char>, dir: DirOutcomeView, downloaded: Seq<u8>)
    requires
        dir != DirOutcomeView::Failed,
        !is_known_image(downloaded),
    ensures
        forall|read: Option<Seq<u8>>|
            resolve_run(url, dir, false, read, Some(downloaded)) == ResolveActionView::Fail(
                NewsAPIErrorView::Image,
            ),
{
}

} // verus!

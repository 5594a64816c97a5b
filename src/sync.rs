//! Cache synchronisation: cached templates and toolchain metadata are
//! fetched again only when the upstream revision differs from the one
//! recorded beside them.
use vstd::prelude::*;
use crate::text::{first_word, first_word_spec};

verus! {

/// Why a synchronisation failed.
#[derive(Debug, Clone, Copy, PartialEq, Eq, Structural)]
pub enum SyncError {
    /// The upstream revision could not be queried.
    RemoteQueryFailed,
    /// The fetch of the cached directory failed.
    FetchFailed,
}

/// The revision recorded in a marker, if there is a marker.
pub open spec fn marker_view(marker: Option<String>) -> Option<Seq<char>> {
    match marker {
        Some(s) => Some(s@),
        None => None,
    }
}

/// The revision that `git ls-remote <repo> HEAD` prints: the first word of
/// its output. Output without one is a failed query.
pub fn revision_from_ls_remote(output: &str) -> (r: Result<String, SyncError>)
    ensures
        match r {
            Ok(rev) => first_word_spec(output@) == Some(rev@),
            Err(e) => first_word_spec(output@) is None && e == SyncError::RemoteQueryFailed,
        },
{
    match first_word(output) {
        Some(w) => Ok(w),
        None => Err(SyncError::RemoteQueryFailed),
    }
}

/// The cache is stale when no revision is recorded or the recorded one
/// differs from upstream.
pub open spec fn is_stale(marker: Option<Seq<char>>, remote: Seq<char>) -> bool {
    match marker {
        Some(m) => m != remote,
        None => true,
    }
}

/// Whether the cache must be fetched again.
pub fn needs_sync(marker: &Option<String>, remote: &String) -> (r: bool)
    ensures
        r == is_stale(marker_view(*marker), remote@),
{
    match marker {
        Some(m) => !(*m == *remote),
        None => true,
    }
}

/// The marker after one synchronisation call: a successful fetch records
/// the upstream revision; otherwise the marker stays as it was.
pub open spec fn marker_after_spec(
    marker: Option<Seq<char>>,
    remote: Seq<char>,
    fetched: bool,
    fetch_ok: bool,
) -> Option<Seq<char>> {
    if fetched && fetch_ok {
        Some(remote)
    } else {
        marker
    }
}

/// Concludes a synchronisation call. `fetched` says whether the cached
/// directory was fetched again, `fetch_ok` whether that fetch succeeded.
pub fn conclude_sync(marker: Option<String>, remote: &String, fetched: bool, fetch_ok: bool) -> (r: (
    Option<String>,
    Result<(), SyncError>,
))
    ensures
        marker_view(r.0) == marker_after_spec(marker_view(marker), remote@, fetched, fetch_ok),
        r.1 is Ok <==> !fetched || fetch_ok,
        r.1 is Err ==> r.1 == Err::<(), SyncError>(SyncError::FetchFailed),
{
    if fetched {
        if fetch_ok {
            (Some(remote.clone()), Ok(()))
        } else {
            (marker, Err(SyncError::FetchFailed))
        }
    } else {
        (marker, Ok(()))
    }
}

/// One synchronisation call against an unchanged upstream, as a model: it
/// fetches exactly when the cache is stale and gives the new marker and
/// whether it fetched.
pub open spec fn sync_call(marker: Option<Seq<char>>, remote: Seq<char>, fetch_ok: bool) -> (Option<Seq<char>>, bool) {
    let fetched = is_stale(marker, remote);
    (marker_after_spec(marker, remote, fetched, fetch_ok), fetched)
}

/// Two calls in a row against an unchanged upstream fetch at most once: the
/// first fetches exactly when the cache was stale, and once it has
/// succeeded the second does nothing and leaves the marker as it is.
pub proof fn lemma_sync_idempotent(marker: Option<Seq<char>>, remote: Seq<char>, ok2: bool)
    ensures
        ({
            let (m1, fetched1) = sync_call(marker, remote, true);
            let (m2, fetched2) = sync_call(m1, remote, ok2);
            &&& fetched1 == is_stale(marker, remote)
            &&& m1 == Some(remote)
            &&& !fetched2
            &&& m2 == m1
        }),
{
}

} // verus!

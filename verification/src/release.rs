//! Releases and their downloadable assets, as returned by the releases-listing
//! endpoint, and the selection logic that runs over them: picking the latest
//! release and locating the asset with the expected name.

use vstd::prelude::*;

use crate::errors::UpdateError;
use crate::timestamp::Timestamp;

verus! {

/// A single downloadable file attached to a release.
#[derive(Debug)]
pub struct ReleaseAsset {
    /// The asset's file name, matched exactly against the expected binary name.
    pub name: String,
    /// The asset's size in bytes, as reported by the endpoint.
    pub size: u64,
    /// Where the asset's bytes are fetched from.
    pub browser_download_url: String,
}

/// A published release: an opaque reference URL, the instant it was published,
/// and its assets in the order the endpoint listed them.
#[derive(Debug)]
pub struct ReleaseRecord {
    pub url: String,
    pub published_at: Timestamp,
    pub assets: Vec<ReleaseAsset>,
}

/// Returns the first entry of the release list unchanged; the endpoint lists
/// the most recent release first. Fails exactly when the list is empty.
pub fn latest_release(releases: Vec<ReleaseRecord>) -> (r: Result<ReleaseRecord, UpdateError>)
    ensures
        releases@.len() > 0 ==> (r matches Ok(rel) && rel == releases@[0]),
        releases@.len() == 0 ==> r == Err::<ReleaseRecord, UpdateError>(UpdateError::ReleaseNotFound),
{
    let mut releases = releases;
    if releases.len() == 0 {
        Err(UpdateError::ReleaseNotFound)
    } else {
        Ok(releases.remove(0))
    }
}

/// Some asset in `assets` carries exactly the name `expected`.
pub open spec fn spec_has_asset(assets: Seq<ReleaseAsset>, expected: Seq<char>) -> bool {
    exists|i: int| 0 <= i < assets.len() && assets[i].name@ == expected
}

/// Returns the index of the first asset whose name equals `expected_name`
/// exactly. Fails exactly when no asset carries that name.
pub fn find_asset(assets: &Vec<ReleaseAsset>, expected_name: &String) -> (r: Result<
    usize,
    UpdateError,
>)
    ensures
        r matches Ok(i) ==> i < assets@.len() && assets@[i as int].name@ == expected_name@
            && (forall|j: int| 0 <= j < i ==> assets@[j].name@ != expected_name@),
        r is Err ==> r == Err::<usize, UpdateError>(UpdateError::AssetNotFound)
            && !spec_has_asset(assets@, expected_name@),
{
    let mut i: usize = 0;
    while i < assets.len()
        invariant
            i <= assets@.len(),
            forall|j: int| 0 <= j < i ==> assets@[j].name@ != expected_name@,
        decreases assets@.len() - i,
    {
        if assets[i].name == *expected_name {
            return Ok(i);
        }
        i = i + 1;
    }
    Err(UpdateError::AssetNotFound)
}

} // verus!

//! The run's single decision: given the release list and the local binary's
//! state, either nothing is to be done before launching, or one named asset is
//! to be downloaded — or the run fails.

use vstd::prelude::*;

use crate::errors::UpdateError;
use crate::release::{find_asset, latest_release, spec_has_asset, ReleaseRecord};
use crate::staleness::{needs_update, spec_needs_update};
use crate::timestamp::Timestamp;

verus! {

/// What the run must do before launching the binary.
#[derive(Debug)]
pub enum UpdatePlan {
    /// The local binary is up to date; launch it as it is.
    UpToDate,
    /// Replace the local binary with the asset's bytes.
    Download { url: String, size: u64 },
}

/// Decides the run from the release list and the local binary's state.
///
/// The first release of the list is the latest; an empty list fails. A local
/// binary modified strictly after that release's publish time is left alone.
/// Otherwise the first asset named exactly `expected_name` is to be
/// downloaded; a release without one fails, and the local file is then left
/// untouched.
pub fn update_plan(
    releases: Vec<ReleaseRecord>,
    local_mtime: Option<Timestamp>,
    expected_name: &String,
) -> (r: Result<UpdatePlan, UpdateError>)
    ensures
        releases@.len() == 0 ==> r == Err::<UpdatePlan, UpdateError>(UpdateError::ReleaseNotFound),
        releases@.len() > 0 && !spec_needs_update(local_mtime, releases@[0].published_at) ==> (
        r matches Ok(p) && p is UpToDate),
        releases@.len() > 0 && spec_needs_update(local_mtime, releases@[0].published_at)
            && !spec_has_asset(releases@[0].assets@, expected_name@) ==> r == Err::<
            UpdatePlan,
            UpdateError,
        >(UpdateError::AssetNotFound),
        releases@.len() > 0 && spec_needs_update(local_mtime, releases@[0].published_at)
            && spec_has_asset(releases@[0].assets@, expected_name@) ==> exists|i: int|
            0 <= i < releases@[0].assets@.len() && releases@[0].assets@[i].name@ == expected_name@
                && (forall|j: int| 0 <= j < i ==> releases@[0].assets@[j].name@ != expected_name@)
                && (r matches Ok(p) && p matches UpdatePlan::Download { url, size } && url@
                == releases@[0].assets@[i].browser_download_url@ && size
                == releases@[0].assets@[i].size),
{
    let release = match latest_release(releases) {
        Ok(rel) => rel,
        Err(e) => {
            return Err(e);
        },
    };
    if !needs_update(local_mtime, release.published_at) {
        return Ok(UpdatePlan::UpToDate);
    }
    let idx = match find_asset(&release.assets, expected_name) {
        Ok(i) => i,
        Err(e) => {
            return Err(e);
        },
    };
    let asset = &release.assets[idx];
    Ok(UpdatePlan::Download { url: asset.browser_download_url.clone(), size: asset.size })
}

/// Law: a second run is idempotent. A successful download leaves the local
/// binary with a modification time strictly after the release's publish time,
/// and against an unchanged latest release such a binary never needs another
/// download — the rerun decides "up to date".
pub proof fn lemma_second_run_downloads_nothing(releases: Seq<ReleaseRecord>, local_mtime: Timestamp)
    requires
        releases.len() > 0,
        releases[0].published_at.spec_before(local_mtime),
    ensures
        !spec_needs_update(Some(local_mtime), releases[0].published_at),
{
}

} // verus!

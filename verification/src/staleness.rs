//! The staleness check: whether the local binary must be (re)downloaded.
//!
//! The local file's modification time is the only record of what is installed.
//! The file counts as up to date only when that time lies strictly after the
//! release's publish time; a missing file, an unreadable time, or equal
//! instants all conservatively trigger a download.

use vstd::prelude::*;

use crate::timestamp::Timestamp;

verus! {

/// The local binary must be downloaded: there is no readable modification
/// time, or that time does not lie strictly after the publish time.
pub open spec fn spec_needs_update(local_mtime: Option<Timestamp>, published_at: Timestamp) -> bool {
    match local_mtime {
        None => true,
        Some(m) => !published_at.spec_before(m),
    }
}

/// Decides whether the local binary must be (re)downloaded. `local_mtime` is
/// the local file's modification time, or `None` when the file is missing or
/// its time could not be read.
pub fn needs_update(local_mtime: Option<Timestamp>, published_at: Timestamp) -> (r: bool)
    ensures
        r == spec_needs_update(local_mtime, published_at),
{
    match local_mtime {
        None => true,
        Some(m) => !published_at.is_before(&m),
    }
}

/// Law: the local binary counts as up to date exactly when its modification
/// time is readable and lies strictly after the release's publish time.
pub proof fn lemma_up_to_date_iff_strictly_newer(
    local_mtime: Option<Timestamp>,
    published_at: Timestamp,
)
    ensures
        !spec_needs_update(local_mtime, published_at) <==> (local_mtime matches Some(m)
            && published_at.spec_before(m)),
{
}

} // verus!

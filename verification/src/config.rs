//! The fixed configuration of the updater: the endpoint it queries, the header
//! it sends, the file it manages, and where that file lives by default.

use vstd::prelude::*;

verus! {

/// Permission bits set on the installed binary: read, write and execute for
/// every principal.
pub const FULL_ACCESS_MODE: u32 = 0o777;

/// The releases-listing endpoint queried for the latest published release.
pub fn release_url() -> (r: &'static str)
    ensures
        r@ == "https://api.github.com/repos/ppy/osu/releases"@,
{
    "https://api.github.com/repos/ppy/osu/releases"
}

/// The user-agent header sent with every request; servers may reject requests
/// without one.
pub fn user_agent() -> (r: &'static str)
    ensures
        r@ == "OsuLinuxUpdater"@,
{
    "OsuLinuxUpdater"
}

/// The name of the managed binary, and the exact asset name looked up in a
/// release's asset list.
pub fn file_name() -> (r: &'static str)
    ensures
        r@ == "osu.AppImage"@,
{
    "osu.AppImage"
}

/// The subdirectory of the platform's data root used when no override is set.
pub fn data_dir_name() -> (r: &'static str)
    ensures
        r@ == "osu-linux-launcher"@,
{
    "osu-linux-launcher"
}

/// The environment variable that overrides the install directory.
pub fn env_dir_name() -> (r: &'static str)
    ensures
        r@ == "OSU_DIR"@,
{
    "OSU_DIR"
}

} // verus!

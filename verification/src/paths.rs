//! Resolving the install directory and the path of the managed binary.

use vstd::prelude::*;

use vstd::string::StringExecFns;

use crate::errors::UpdateError;

verus! {

/// The directory the resolver must produce: a non-empty override verbatim,
/// else the platform data root joined with `dir_name`, else none.
pub open spec fn spec_install_dir(
    env_override: Option<String>,
    platform_data_root: Option<String>,
    dir_name: Seq<char>,
) -> Option<Seq<char>> {
    match env_override {
        Some(ov) if ov@.len() > 0 => Some(ov@),
        _ => match platform_data_root {
            Some(root) => Some(root@ + "/"@ + dir_name),
            None => None,
        },
    }
}

/// Resolves the install directory. A non-empty `env_override` is used
/// verbatim; otherwise the platform's data root is joined with `dir_name`.
/// Fails exactly when neither source yields a directory.
pub fn resolve_install_dir(
    env_override: Option<String>,
    platform_data_root: Option<String>,
    dir_name: &str,
) -> (r: Result<String, UpdateError>)
    ensures
        match spec_install_dir(env_override, platform_data_root, dir_name@) {
            Some(d) => r matches Ok(s) && s@ == d,
            None => r == Err::<String, UpdateError>(UpdateError::Configuration),
        },
{
    if let Some(ov) = env_override {
        if !ov.as_str().is_empty() {
            return Ok(ov);
        }
    }
    match platform_data_root {
        Some(root) => Ok(root.concat("/").concat(dir_name)),
        None => Err(UpdateError::Configuration),
    }
}

/// Joins a directory with a file name, separated by a single slash.
pub fn join_path(dir: &str, file: &str) -> (r: String)
    ensures
        r@ == dir@ + "/"@ + file@,
{
    dir.to_owned().concat("/").concat(file)
}

} // verus!

//! Where the application writes its logs.
use vstd::prelude::*;
use std::path::PathBuf;
use directories::ProjectDirs;
use crate::identity::{APP_NAME, APP_ORGANIZATION, APP_QUALIFIER};
use crate::platform::{
    data_local_dir_of, join_path, path_join, project_data_local_dir, project_dirs, project_path_for,
    project_path_of,
};
use crate::text::push_str;

verus! {

/// The log directory: `logs` in the application's local data directory, or
/// an error message when the platform reports no such directory. Whether
/// the platform reports one depends on the environment; whatever it
/// reports, a path that comes back is `logs` in the local data directory of
/// this application's directories, those whose project path is derived from
/// its identity (`log_dir_in` states the path for a given answer).
pub fn log_dir() -> (r: Result<PathBuf, String>)
    ensures
        r is Err ==> r->Err_0@ == "log directory is not available"@,
        r matches Ok(p) ==> exists|d: ProjectDirs|
            project_path_of(d) == project_path_for(APP_QUALIFIER@, APP_ORGANIZATION@, APP_NAME@)
                && p == #[trigger] path_join(data_local_dir_of(d), "logs"@),
{
    let dirs = project_dirs(APP_QUALIFIER, APP_ORGANIZATION, APP_NAME);
    let ghost reported = dirs;
    let r = log_dir_in(dirs);
    proof {
        if r is Ok {
            let d = reported->Some_0;
            assert(r->Ok_0 == path_join(data_local_dir_of(d), "logs"@));
        }
    }
    r
}

/// `logs` in the local data directory of the application directories that
/// the platform reported, or an error message when it reported none.
pub fn log_dir_in(dirs: Option<ProjectDirs>) -> (r: Result<PathBuf, String>)
    ensures
        r is Err <==> dirs is None,
        r is Err ==> r->Err_0@ == "log directory is not available"@,
        dirs matches Some(d) ==> r matches Ok(p) && p == path_join(data_local_dir_of(d), "logs"@),
{
    match dirs {
        None => {
            let mut message = String::new();
            push_str(&mut message, "log directory is not available");
            Err(message)
        },
        Some(dirs) => Ok(join_path(&project_data_local_dir(&dirs), "logs")),
    }
}

} // verus!

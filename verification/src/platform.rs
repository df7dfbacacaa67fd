//! Directories of the current user, as the `directories` crate reports them.
use vstd::prelude::*;
use std::path::PathBuf;
use directories::ProjectDirs;

verus! {

#[verifier::external_type_specification]
#[verifier::external_body]
pub struct ExPathBuf(PathBuf);

#[verifier::external_type_specification]
#[verifier::external_body]
pub struct ExProjectDirs(ProjectDirs);

#[verifier::external_type_specification]
#[verifier::external_body]
pub struct ExIoError(std::io::Error);

#[verifier::external_type_specification]
#[verifier::external_body]
pub struct ExJsonError(serde_json::Error);

/// The project path fragment held by a set of application directories
/// (what `ProjectDirs::project_path` returns for them).
pub uninterp spec fn project_path_of(dirs: ProjectDirs) -> PathBuf;

/// The project path fragment that `ProjectDirs::from` derives from a
/// qualifier, an organisation and an application name (on Linux the
/// application name lower-cased without white space, on Windows
/// `organisation/application`, on macOS the bundle identifier).
pub uninterp spec fn project_path_for(
    qualifier: Seq<char>,
    organization: Seq<char>,
    application: Seq<char>,
) -> PathBuf;

/// `ProjectDirs::from`: the per-user directories of an application, or
/// `None` when the platform reports no home directory. Which of the two
/// comes back, and the base directories, depend on the environment and are
/// not stated; directories that come back are those of the project whose
/// path fragment is derived from the three names given.
#[verifier::external_body]
pub(crate) fn project_dirs(qualifier: &str, organization: &str, application: &str) -> (r: Option<ProjectDirs>)
    ensures
        r matches Some(d) ==> project_path_of(d) == project_path_for(
            qualifier@,
            organization@,
            application@,
        ),
{
    ProjectDirs::from(qualifier, organization, application)
}

/// The configuration directory held by a set of application directories
/// (what `ProjectDirs::config_dir` returns for them).
pub uninterp spec fn config_dir_of(dirs: ProjectDirs) -> PathBuf;

/// The local data directory held by a set of application directories
/// (what `ProjectDirs::data_local_dir` returns for them).
pub uninterp spec fn data_local_dir_of(dirs: ProjectDirs) -> PathBuf;

/// `base` with the component `name` appended (what `Path::join` returns).
pub uninterp spec fn path_join(base: PathBuf, name: Seq<char>) -> PathBuf;

/// `ProjectDirs::config_dir`: the application's configuration directory, a
/// field of `dirs` that the call copies out. The contract names the result
/// as a function of `dirs`; what the path holds is not stated.
#[verifier::external_body]
pub(crate) fn project_config_dir(dirs: &ProjectDirs) -> (r: PathBuf)
    ensures
        r == config_dir_of(*dirs),
{
    dirs.config_dir().to_path_buf()
}

/// `ProjectDirs::data_local_dir`: the application's local data directory, a
/// field of `dirs` that the call copies out. The contract names the result
/// as a function of `dirs`; what the path holds is not stated.
#[verifier::external_body]
pub(crate) fn project_data_local_dir(dirs: &ProjectDirs) -> (r: PathBuf)
    ensures
        r == data_local_dir_of(*dirs),
{
    dirs.data_local_dir().to_path_buf()
}

/// `Path::join`: `base` with `name` appended as a further component. The
/// contract names the result as a function of `base` and the characters of
/// `name`; what the path holds is not stated.
#[verifier::external_body]
pub(crate) fn join_path(base: &PathBuf, name: &str) -> (r: PathBuf)
    ensures
        r == path_join(*base, name@),
{
    base.join(name)
}

} // verus!

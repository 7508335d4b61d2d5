use vstd::prelude::*;

use std::path::PathBuf;

use crate::dir::{dir_base, dir_failure, dir_goal, dir_path, dir_stage, DirGoal, DirPlan, DirStage};
use crate::error::Error;
use crate::platform::{
    join_path, join_path_buf, leading_components, path_components, path_empty, path_is_empty,
    path_joined, path_joined_path, ComponentKind,
};

verus! {

/// The platforms whose per-user data directory the library knows.
#[derive(Debug, Clone, Copy, PartialEq, Eq, Structural)]
pub enum Platform {
    /// `%LOCALAPPDATA%`, else `%USERPROFILE%\AppData\Local`.
    Windows,
    /// `$HOME/Library/Application Support`.
    MacOs,
    /// `$XDG_DATA_HOME`, else `$HOME/.local/share`.
    Unix,
}

/// The environment settings that locate the per-user data directory, as
/// the host read them (`None` where a variable is not set).
#[derive(Debug)]
pub struct DataDirEnv {
    pub xdg_data_home: Option<PathBuf>,
    pub home: Option<PathBuf>,
    pub local_app_data: Option<PathBuf>,
    pub user_profile: Option<PathBuf>,
}

/// Where the per-user data directory comes from.
#[derive(Debug, Clone, Copy, PartialEq, Eq, Structural)]
pub enum DataDirSource {
    /// `$XDG_DATA_HOME` itself.
    XdgDataHome,
    /// `$HOME/.local/share`.
    HomeLocalShare,
    /// `$HOME/Library/Application Support`.
    HomeLibrary,
    /// `%LOCALAPPDATA%` itself.
    LocalAppData,
    /// `%USERPROFILE%\AppData\Local`.
    UserProfileLocal,
    /// No setting locates it.
    Missing,
}

/// The source of the data directory on `platform`, given which settings
/// are set and which of the directly used ones are non-empty: a directly
/// used variable counts only when it is non-empty, and the home variables
/// are the fallback.
pub open spec fn data_dir_source(
    platform: Platform,
    xdg_non_empty: bool,
    has_home: bool,
    local_non_empty: bool,
    has_profile: bool,
) -> DataDirSource {
    match platform {
        Platform::Windows => if local_non_empty {
            DataDirSource::LocalAppData
        } else if has_profile {
            DataDirSource::UserProfileLocal
        } else {
            DataDirSource::Missing
        },
        Platform::MacOs => if has_home {
            DataDirSource::HomeLibrary
        } else {
            DataDirSource::Missing
        },
        Platform::Unix => if xdg_non_empty {
            DataDirSource::XdgDataHome
        } else if has_home {
            DataDirSource::HomeLocalShare
        } else {
            DataDirSource::Missing
        },
    }
}

/// Chooses where the data directory comes from; see [`data_dir_source`].
pub fn choose_data_dir(
    platform: Platform,
    xdg_non_empty: bool,
    has_home: bool,
    local_non_empty: bool,
    has_profile: bool,
) -> (r: DataDirSource)
    ensures
        r == data_dir_source(platform, xdg_non_empty, has_home, local_non_empty, has_profile),
{
    match platform {
        Platform::Windows => if local_non_empty {
            DataDirSource::LocalAppData
        } else if has_profile {
            DataDirSource::UserProfileLocal
        } else {
            DataDirSource::Missing
        },
        Platform::MacOs => if has_home {
            DataDirSource::HomeLibrary
        } else {
            DataDirSource::Missing
        },
        Platform::Unix => if xdg_non_empty {
            DataDirSource::XdgDataHome
        } else if has_home {
            DataDirSource::HomeLocalShare
        } else {
            DataDirSource::Missing
        },
    }
}

/// Whether an environment setting is set and not empty.
pub open spec fn set_non_empty(p: Option<PathBuf>) -> bool {
    p is Some && !path_empty(p->0)
}

/// The data directory that a source gives for the environment.
pub open spec fn data_dir_path(source: DataDirSource, env: DataDirEnv) -> Result<PathBuf, Error> {
    match source {
        DataDirSource::XdgDataHome => Ok(env.xdg_data_home->0),
        DataDirSource::LocalAppData => Ok(env.local_app_data->0),
        DataDirSource::HomeLocalShare => Ok(
            path_joined(path_joined(env.home->0, ".local"@), "share"@),
        ),
        DataDirSource::HomeLibrary => Ok(
            path_joined(path_joined(env.home->0, "Library"@), "Application Support"@),
        ),
        DataDirSource::UserProfileLocal => Ok(
            path_joined(path_joined(env.user_profile->0, "AppData"@), "Local"@),
        ),
        DataDirSource::Missing => Err(Error::NotFound),
    }
}

/// The per-user data directory on `platform` for the environment.
pub open spec fn data_dir_of(platform: Platform, env: DataDirEnv) -> Result<PathBuf, Error> {
    data_dir_path(
        data_dir_source(
            platform,
            set_non_empty(env.xdg_data_home),
            env.home is Some,
            set_non_empty(env.local_app_data),
            env.user_profile is Some,
        ),
        env,
    )
}

fn non_empty(p: &Option<PathBuf>) -> (r: bool)
    ensures
        r == set_non_empty(*p),
{
    match p {
        Some(p) => !path_is_empty(p),
        None => false,
    }
}

/// Builds the data directory from the environment for a chosen source:
/// a directly used variable is handed back as it is, a home directory gets
/// its platform's subdirectories appended, and a missing one is `NotFound`.
pub fn data_dir_from(source: DataDirSource, env: DataDirEnv) -> (r: Result<PathBuf, Error>)
    requires
        source == DataDirSource::XdgDataHome ==> env.xdg_data_home is Some,
        source == DataDirSource::HomeLocalShare ==> env.home is Some,
        source == DataDirSource::HomeLibrary ==> env.home is Some,
        source == DataDirSource::LocalAppData ==> env.local_app_data is Some,
        source == DataDirSource::UserProfileLocal ==> env.user_profile is Some,
    ensures
        r == data_dir_path(source, env),
{
    match source {
        DataDirSource::XdgDataHome => Ok(env.xdg_data_home.unwrap()),
        DataDirSource::LocalAppData => Ok(env.local_app_data.unwrap()),
        DataDirSource::HomeLocalShare => {
            let home = env.home.unwrap();
            Ok(join_path(&join_path(&home, ".local"), "share"))
        },
        DataDirSource::HomeLibrary => {
            let home = env.home.unwrap();
            Ok(join_path(&join_path(&home, "Library"), "Application Support"))
        },
        DataDirSource::UserProfileLocal => {
            let profile = env.user_profile.unwrap();
            Ok(join_path(&join_path(&profile, "AppData"), "Local"))
        },
        DataDirSource::Missing => Err(Error::NotFound),
    }
}

/// Locates the per-user data directory on `platform` from the environment.
///
/// On Unix it is `$XDG_DATA_HOME` when that is set and non-empty, else
/// `$HOME/.local/share`; on macOS `$HOME/Library/Application Support`; on
/// Windows `%LOCALAPPDATA%` when set and non-empty, else
/// `%USERPROFILE%\AppData\Local`. Without the needed variables the result is
/// `NotFound`.
pub fn platform_data_dir_with(platform: Platform, env: DataDirEnv) -> (r: Result<PathBuf, Error>)
    ensures
        r == data_dir_of(platform, env),
{
    let source = choose_data_dir(
        platform,
        non_empty(&env.xdg_data_home),
        env.home.is_some(),
        non_empty(&env.local_app_data),
        env.user_profile.is_some(),
    );
    data_dir_from(source, env)
}

/// Whether a name made of the components `first`, `second`, ... is a single
/// ordinary path component (no root, no prefix, no `.` or `..`, no separator).
pub open spec fn single_normal(first: Option<ComponentKind>, second: Option<ComponentKind>) -> bool {
    first == Some(ComponentKind::Normal) && second is None
}

/// Accepts a name whose first component is an ordinary one and that has no
/// second component; refuses anything else with `InvalidInput`.
pub fn check_name(first: Option<ComponentKind>, second: Option<ComponentKind>) -> (r: Result<
    (),
    Error,
>)
    ensures
        single_normal(first, second) ==> r is Ok,
        !single_normal(first, second) ==> r == Err::<(), Error>(Error::InvalidInput),
{
    match (first, second) {
        (Some(ComponentKind::Normal), None) => Ok(()),
        _ => Err(Error::InvalidInput),
    }
}

/// Checks that `name` is a single path component: not absolute, no `..`,
/// no separator, not empty.
pub fn validate_name(name: &PathBuf) -> (r: Result<(), Error>)
    ensures
        r is Ok <==> single_normal(path_components(*name).0, path_components(*name).1),
        r is Err ==> r == Err::<(), Error>(Error::InvalidInput),
{
    let (first, second) = leading_components(name);
    check_name(first, second)
}

/// Whether `r` is the plan that makes an application directory for `name`
/// in `base`: a ready plan that fails with `InvalidInput` unless `name` is a
/// single ordinary component, and otherwise concerns `base` and `base/name`.
pub open spec fn app_dir_plan(r: DirPlan, base: PathBuf, name: PathBuf) -> bool {
    let kinds = path_components(name);
    &&& dir_goal(r) == DirGoal::AppDir
    &&& dir_stage(r) == DirStage::Ready
    &&& dir_failure(r) is None <==> single_normal(kinds.0, kinds.1)
    &&& dir_failure(r) is Some ==> dir_failure(r) == Some(Error::InvalidInput)
    &&& dir_failure(r) is None ==> dir_base(r) == base && dir_path(r) == path_joined_path(
        base,
        name,
    )
}

/// Creates (or opens and tightens) an owner-only directory for `name`
/// inside `base`.
///
/// `name` must be a single path component; otherwise the plan fails with
/// `InvalidInput` before any filesystem work. Else the plan creates `base`
/// with its parents and then `base/name`.
pub fn app_dir_in(base: PathBuf, name: PathBuf) -> (r: DirPlan)
    ensures
        app_dir_plan(r, base, name),
{
    match validate_name(&name) {
        Err(e) => DirPlan::failed(e, name),
        Ok(()) => {
            let path = join_path_buf(&base, &name);
            DirPlan::app_dir(base, path)
        },
    }
}

/// Creates (or opens and tightens) an owner-only directory for `name`
/// inside the platform's application data directory, as located by
/// [`platform_data_dir_with`]; a failure to locate it ends the plan with
/// that failure.
pub fn app_dir(data_dir: Result<PathBuf, Error>, name: PathBuf) -> (r: DirPlan)
    ensures
        data_dir is Err ==> dir_goal(r) == DirGoal::AppDir && dir_stage(r) == DirStage::Ready
            && dir_failure(r) == Some(data_dir->Err_0),
        data_dir is Ok ==> app_dir_plan(r, data_dir->Ok_0, name),
{
    match data_dir {
        Err(e) => DirPlan::failed(e, name),
        Ok(base) => app_dir_in(base, name),
    }
}

/// Law: on Unix, `$XDG_DATA_HOME` is the data directory when it is set and
/// non-empty; otherwise `$HOME/.local/share` is, when `$HOME` is set; with
/// neither, the data directory is not found.
pub proof fn lemma_unix_data_dir(env: DataDirEnv)
    ensures
        set_non_empty(env.xdg_data_home) ==> data_dir_of(Platform::Unix, env) == Ok::<
            PathBuf,
            Error,
        >(env.xdg_data_home->0),
        !set_non_empty(env.xdg_data_home) && env.home is Some ==> data_dir_of(Platform::Unix, env)
            == Ok::<PathBuf, Error>(path_joined(path_joined(env.home->0, ".local"@), "share"@)),
        !set_non_empty(env.xdg_data_home) && env.home is None ==> data_dir_of(Platform::Unix, env)
            == Err::<PathBuf, Error>(Error::NotFound),
{
}

/// Law: on Windows, `%LOCALAPPDATA%` is the data directory when it is set
/// and non-empty; otherwise `%USERPROFILE%\AppData\Local` is, when
/// `%USERPROFILE%` is set; with neither, the data directory is not found.
pub proof fn lemma_windows_data_dir(env: DataDirEnv)
    ensures
        set_non_empty(env.local_app_data) ==> data_dir_of(Platform::Windows, env) == Ok::<
            PathBuf,
            Error,
        >(env.local_app_data->0),
        !set_non_empty(env.local_app_data) && env.user_profile is Some ==> data_dir_of(
            Platform::Windows,
            env,
        ) == Ok::<PathBuf, Error>(path_joined(path_joined(env.user_profile->0, "AppData"@), "Local"@)),
        !set_non_empty(env.local_app_data) && env.user_profile is None ==> data_dir_of(
            Platform::Windows,
            env,
        ) == Err::<PathBuf, Error>(Error::NotFound),
{
}

/// Law: an application-directory plan for a name that is not a single
/// ordinary component ends at its first step with `InvalidInput`, before any
/// filesystem request.
pub proof fn lemma_app_dir_rejects_before_work(r: DirPlan, base: PathBuf, name: PathBuf)
    requires
        app_dir_plan(r, base, name),
        !single_normal(path_components(name).0, path_components(name).1),
    ensures
        crate::dir::dir_first(r) == (
            DirStage::Done,
            crate::request::Step::<crate::dir::SecureDir>::Finish(Err(Error::InvalidInput)),
        ),
{
}

/// Law: an application-directory plan for a single ordinary name first
/// creates the base with its parents, and then (in the stage that first
/// step leads to) asks to create `base/name`.
pub proof fn lemma_app_dir_creates_joined(r: DirPlan, next: DirPlan, base: PathBuf, name: PathBuf)
    requires
        app_dir_plan(r, base, name),
        single_normal(path_components(name).0, path_components(name).1),
        crate::dir::same_dir_plan(next, r),
        dir_stage(next) == DirStage::MakingBase,
    ensures
        crate::dir::dir_first(r) == (
            DirStage::MakingBase,
            crate::request::Step::<crate::dir::SecureDir>::Perform(
                crate::request::Request::CreateDirAll(base),
            ),
        ),
        crate::dir::dir_next(next, crate::request::Reply::Status(Ok(()))).1
            == crate::request::Step::<crate::dir::SecureDir>::Perform(
            crate::request::Request::CreateDir(path_joined_path(base, name)),
        ),
{
}

/// Law: on macOS the data directory is `$HOME/Library/Application Support`
/// whenever `$HOME` is set, whatever the other settings hold
/// (`$XDG_DATA_HOME` included); without `$HOME` it is not found.
pub proof fn lemma_macos_data_dir(env: DataDirEnv)
    ensures
        env.home is Some ==> data_dir_of(Platform::MacOs, env) == Ok::<PathBuf, Error>(
            path_joined(path_joined(env.home->0, "Library"@), "Application Support"@),
        ),
        env.home is None ==> data_dir_of(Platform::MacOs, env) == Err::<PathBuf, Error>(
            Error::NotFound,
        ),
{
}

/// Law: on every platform the data directory is found exactly when a
/// setting that locates it is there: on Unix and macOS `$HOME` (or, on
/// Unix, a non-empty `$XDG_DATA_HOME`), on Windows a non-empty
/// `%LOCALAPPDATA%` or `%USERPROFILE%`; a failure is always `NotFound`.
pub proof fn lemma_data_dir_found(platform: Platform, env: DataDirEnv)
    ensures
        data_dir_of(platform, env) is Ok <==> match platform {
            Platform::Unix => set_non_empty(env.xdg_data_home) || env.home is Some,
            Platform::MacOs => env.home is Some,
            Platform::Windows => set_non_empty(env.local_app_data) || env.user_profile is Some,
        },
        data_dir_of(platform, env) is Err ==> data_dir_of(platform, env) == Err::<PathBuf, Error>(
            Error::NotFound,
        ),
{
}

} // verus!

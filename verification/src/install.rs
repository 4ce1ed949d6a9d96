//! The installer: deciding how a resolved tool binary is obtained — from the
//! system search path, from the existing install, or by a single download —
//! and judging the download's HTTP status.
//!
//! The decisions are made here from plain observations (was a system binary
//! found, does the versioned file exist, which status came back); the caller
//! performs the lookup, the existence check, the network request and the
//! file writes, in that order.

use vstd::prelude::*;

use crate::paths::join;
use crate::paths::join_spec;
use crate::platform::downloaded_bin_name_spec;
use crate::platform::Arch;
use crate::platform::Os;
use crate::version::TailwindCli;

verus! {

/// Data-directory lookup for the per-user install location.
#[derive(Clone, Copy, Debug, Default)]
pub struct Workspace;

#[verifier::external_type_specification]
#[verifier::external_body]
pub struct ExProjectDirs(directories::ProjectDirs);

/// Relies on `directories::ProjectDirs::from`: computes the conventional
/// project directories for the given qualifier, organization and application
/// from the platform and the process environment; `None` when no home
/// directory can be determined. The result depends on the environment, so
/// nothing is promised of it.
#[verifier::external_body]
fn project_dirs_from(qualifier: &str, organization: &str, application: &str) -> Option<
    directories::ProjectDirs,
> {
    directories::ProjectDirs::from(qualifier, organization, application)
}

/// Relies on `directories::ProjectDirs::data_dir`: the project's data
/// directory as computed by the platform conventions. The result depends on
/// the environment, so nothing is promised of it.
#[verifier::external_body]
fn project_data_dir(dirs: &directories::ProjectDirs) -> String {
    dirs.data_dir().to_string_lossy().into_owned()
}

/// Failure while locating or installing the tool binary.
#[derive(Clone, Copy, Debug, PartialEq, Eq, Structural)]
pub enum InstallError {
    /// No release artifact is published for the host platform.
    UnsupportedPlatform,
    /// The system search path holds no tool binary (no-downloads mode).
    NotFound,
    /// The per-user data directory could not be determined.
    NoDataDir,
    /// The download answered with a non-success HTTP status.
    Download { status: u16 },
}

impl Workspace {
    /// Per-user data directory for xilem tooling, from the platform's
    /// project-directory conventions.
    pub fn xilem_data_dir() -> (r: Result<String, InstallError>)
        ensures
            r is Err ==> r == Result::<String, InstallError>::Err(InstallError::NoDataDir),
    {
        match project_dirs_from("org", "linebender", "xilem") {
            Option::Some(dirs) => Result::Ok(project_data_dir(&dirs)),
            Option::None => Result::Err(InstallError::NoDataDir),
        }
    }
}

/// What the caller must do to make the binary available.
#[derive(Clone, Debug, PartialEq, Eq)]
pub enum InstallAction {
    /// Use the system binary found at this path; nothing is installed.
    UseSystem { path: String },
    /// The versioned binary already exists at this path; no network access.
    AlreadyInstalled { path: String },
    /// Fetch `url` with one HTTP GET and write the body to `path`, marking
    /// it executable.
    Download { url: String, path: String },
}

/// The shape of an installation decision, without its paths.
#[derive(Clone, Copy, Debug, PartialEq, Eq, Structural)]
pub enum InstallDecision {
    UseSystem,
    AlreadyInstalled,
    Download,
    FailNotFound,
    FailUnsupported,
    FailOther,
}

/// The decision table of the installer: a preference for the system binary
/// short-circuits on the lookup result and never touches the network; an
/// existing versioned binary short-circuits on existence; only a missing
/// binary on a supported platform downloads.
pub open spec fn install_decision_spec(
    prefer_no_downloads: bool,
    system_found: bool,
    installed_exists: bool,
    platform_supported: bool,
) -> InstallDecision {
    if prefer_no_downloads {
        if system_found {
            InstallDecision::UseSystem
        } else {
            InstallDecision::FailNotFound
        }
    } else if installed_exists {
        InstallDecision::AlreadyInstalled
    } else if platform_supported {
        InstallDecision::Download
    } else {
        InstallDecision::FailUnsupported
    }
}

/// The shape of an installer result.
pub open spec fn action_kind(r: Result<InstallAction, InstallError>) -> InstallDecision {
    match r {
        Result::Ok(InstallAction::UseSystem { .. }) => InstallDecision::UseSystem,
        Result::Ok(InstallAction::AlreadyInstalled { .. }) => InstallDecision::AlreadyInstalled,
        Result::Ok(InstallAction::Download { .. }) => InstallDecision::Download,
        Result::Err(InstallError::NotFound) => InstallDecision::FailNotFound,
        Result::Err(InstallError::UnsupportedPlatform) => InstallDecision::FailUnsupported,
        Result::Err(_) => InstallDecision::FailOther,
    }
}

/// Law: installation is idempotent. When resolving once decides a download
/// and the binary is then present, resolving again with the same spec and
/// preference short-circuits on existence — at most one download ever
/// happens, and with the file present none does.
pub proof fn ensure_installed_idempotent(
    prefer_no_downloads: bool,
    system_found: bool,
    platform_supported: bool,
)
    ensures
        install_decision_spec(prefer_no_downloads, system_found, false, platform_supported)
            == InstallDecision::Download ==> install_decision_spec(
            prefer_no_downloads,
            system_found,
            true,
            platform_supported,
        ) == InstallDecision::AlreadyInstalled,
        install_decision_spec(false, system_found, true, platform_supported)
            == InstallDecision::AlreadyInstalled,
{
}

/// Where the versioned binary lives: the version-qualified filename inside
/// the `tailwind` subdirectory of the per-user data directory.
pub open spec fn installed_path_spec(version: Seq<char>, data_dir: Seq<char>, os: Os) -> Seq<
    char,
> {
    join_spec(
        join_spec(data_dir, "tailwind"@),
        TailwindCli::installed_bin_name_spec(version, os),
    )
}

impl TailwindCli {
    /// The install directory: a `tailwind` subdirectory of the per-user data
    /// directory.
    pub fn install_dir(data_dir: &str) -> (r: String)
        ensures
            r@ == join_spec(data_dir@, "tailwind"@),
    {
        join(data_dir, "tailwind")
    }

    /// Where to find the binary: with a no-downloads preference the system
    /// lookup result decides (and its absence is `NotFound`); otherwise the
    /// deterministic versioned cache path, whether or not it exists yet.
    pub open spec fn get_binary_path_spec(
        version: Seq<char>,
        prefer_no_downloads: bool,
        system_binary: Option<Seq<char>>,
        data_dir: Seq<char>,
        os: Os,
    ) -> Result<Seq<char>, InstallError> {
        if prefer_no_downloads {
            match system_binary {
                Option::Some(p) => Result::Ok(p),
                Option::None => Result::Err(InstallError::NotFound),
            }
        } else {
            Result::Ok(installed_path_spec(version, data_dir, os))
        }
    }

    /// Resolve the path the binary is expected at. `system_binary` is the
    /// caller's search-path lookup result, consulted only under a
    /// no-downloads preference.
    pub fn get_binary_path(
        &self,
        prefer_no_downloads: bool,
        system_binary: Option<String>,
        data_dir: &str,
        os: Os,
    ) -> (r: Result<String, InstallError>)
        ensures
            ({
                let model = TailwindCli::get_binary_path_spec(
                    self.version@,
                    prefer_no_downloads,
                    system_binary.deep_view(),
                    data_dir@,
                    os,
                );
                &&& (r matches Ok(p) ==> model == Result::<Seq<char>, InstallError>::Ok(p@))
                &&& (r matches Err(e) ==> model == Result::<Seq<char>, InstallError>::Err(e))
            }),
    {
        if prefer_no_downloads {
            match system_binary {
                Option::Some(p) => Result::Ok(p),
                Option::None => Result::Err(InstallError::NotFound),
            }
        } else {
            let dir = TailwindCli::install_dir(data_dir);
            Result::Ok(join(dir.as_str(), self.installed_bin_name(os).as_str()))
        }
    }

    /// Decide how the binary becomes available, without performing any of
    /// it. `system_binary` is the search-path lookup result (consulted only
    /// under a no-downloads preference) and `installed_exists` reports
    /// whether the versioned cache path already holds a file.
    pub fn ensure_installed(
        &self,
        prefer_no_downloads: bool,
        system_binary: Option<String>,
        data_dir: &str,
        installed_exists: bool,
        os: Os,
        arch: Arch,
    ) -> (r: Result<InstallAction, InstallError>)
        ensures
            action_kind(r) == install_decision_spec(
                prefer_no_downloads,
                system_binary is Some,
                installed_exists,
                downloaded_bin_name_spec(os, arch) is Some,
            ),
            r matches Ok(InstallAction::UseSystem { path }) ==> Option::Some(path@)
                == system_binary.deep_view(),
            r matches Ok(InstallAction::AlreadyInstalled { path }) ==> path@
                == installed_path_spec(self.version@, data_dir@, os),
            r matches Ok(InstallAction::Download { url, path }) ==> Option::Some(url@)
                == TailwindCli::git_install_url_spec(self.version@, os, arch) && path@
                == installed_path_spec(self.version@, data_dir@, os),
    {
        if prefer_no_downloads {
            match system_binary {
                Option::Some(path) => Result::Ok(InstallAction::UseSystem { path }),
                Option::None => Result::Err(InstallError::NotFound),
            }
        } else {
            let dir = TailwindCli::install_dir(data_dir);
            let path = join(dir.as_str(), self.installed_bin_name(os).as_str());
            if installed_exists {
                Result::Ok(InstallAction::AlreadyInstalled { path })
            } else {
                match self.git_install_url(os, arch) {
                    Option::Some(url) => Result::Ok(InstallAction::Download { url, path }),
                    Option::None => Result::Err(InstallError::UnsupportedPlatform),
                }
            }
        }
    }
}

/// Judge the HTTP status of the single download request: success is owed
/// exactly for a 2xx status, and any other status is a hard download
/// failure carrying that status. Nothing may be written to the cache path
/// unless this returns `Ok`.
pub fn check_download_status(status: u16) -> (r: Result<(), InstallError>)
    ensures
        r is Ok <==> 200 <= status < 300,
        r is Err ==> r == Result::<(), InstallError>::Err(InstallError::Download { status }),
{
    if 200 <= status && status < 300 {
        Result::Ok(())
    } else {
        Result::Err(InstallError::Download { status })
    }
}

} // verus!

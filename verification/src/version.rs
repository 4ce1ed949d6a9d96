//! Version resolution: turning a user-supplied version token (or its absence)
//! into a concrete Tailwind tool specification.

use vstd::prelude::*;
use vstd::string::StringExecFns;

use crate::platform::downloaded_bin_name;
use crate::platform::downloaded_bin_name_spec;
use crate::platform::Arch;
use crate::platform::Os;
use crate::strutil::str_eq;

verus! {

/// The sentinel tag naming the newest release.
pub open spec fn latest_tag_spec() -> Seq<char> {
    "latest"@
}

/// A resolved Tailwind tool: the release tag to install and run. Immutable
/// once constructed.
#[derive(Clone, Debug)]
pub struct TailwindCli {
    pub version: String,
}

/// Shorthand tokens normalize to the `latest` sentinel; any other token is
/// kept verbatim as an exact release tag.
pub open spec fn normalize_version_spec(v: Seq<char>) -> Seq<char> {
    if v == "v4"@ || v == "4"@ || v == "latest"@ {
        latest_tag_spec()
    } else {
        v
    }
}

/// Normalize a user-supplied version token.
pub fn normalize_version(version: String) -> (r: String)
    ensures
        r@ == normalize_version_spec(version@),
{
    let s = version.as_str();
    if str_eq(s, "v4") || str_eq(s, "4") || str_eq(s, "latest") {
        String::from_str("latest")
    } else {
        version
    }
}

/// Law: version-shorthand normalization is total and idempotent. All three
/// shorthands resolve to the same sentinel, any other token round-trips
/// unchanged, and normalizing twice is the same as normalizing once.
pub proof fn normalize_version_idempotent(v: Seq<char>)
    ensures
        normalize_version_spec(normalize_version_spec(v)) == normalize_version_spec(v),
        normalize_version_spec("v4"@) == latest_tag_spec(),
        normalize_version_spec("4"@) == latest_tag_spec(),
        normalize_version_spec("latest"@) == latest_tag_spec(),
        !(v == "v4"@ || v == "4"@ || v == "latest"@) ==> normalize_version_spec(v) == v,
{
}

/// Failure to determine which tool version to use.
#[derive(Clone, Copy, Debug, PartialEq, Eq, Structural)]
pub enum ResolutionError {
    /// No version was given and no input CSS file was found to autodetect
    /// from.
    NoInput,
}

impl ResolutionError {
    /// Human-readable description of the failure.
    pub fn message(&self) -> (r: String)
        ensures
            r@ == "unable to detect tailwind input; expected tailwind.css or --input. Run 'xilem-web-tailwindcss init' first."@,
    {
        String::from_str(
            "unable to detect tailwind input; expected tailwind.css or --input. Run 'xilem-web-tailwindcss init' first.",
        )
    }
}

impl TailwindCli {
    /// A tool pinned to the given release tag, taken verbatim.
    pub fn new(version: String) -> (r: TailwindCli)
        ensures
            r.version@ == version@,
    {
        TailwindCli { version }
    }

    /// The tool at the newest release.
    pub fn latest() -> (r: TailwindCli)
        ensures
            r.version@ == latest_tag_spec(),
    {
        TailwindCli { version: String::from_str("latest") }
    }

    /// Use the newest release when a Tailwind input file is present; the
    /// caller reports whether the resolved input path exists.
    pub fn autodetect(input_exists: bool) -> (r: Option<TailwindCli>)
        ensures
            r is Some <==> input_exists,
            r matches Some(t) ==> t.version@ == latest_tag_spec(),
    {
        if input_exists {
            Option::Some(TailwindCli::latest())
        } else {
            Option::None
        }
    }

    /// The version-qualified filename the binary is installed under, so that
    /// several versions can coexist on disk; on Windows it carries the
    /// executable suffix.
    pub open spec fn installed_bin_name_spec(version: Seq<char>, os: Os) -> Seq<char> {
        if os == Os::Windows {
            "tailwindcss-"@ + version + ".exe"@
        } else {
            "tailwindcss-"@ + version
        }
    }

    /// Version-qualified filename of the installed binary.
    pub fn installed_bin_name(&self, os: Os) -> (r: String)
        ensures
            r@ == TailwindCli::installed_bin_name_spec(self.version@, os),
    {
        let mut name = String::from_str("tailwindcss-");
        name.append(self.version.as_str());
        if matches!(os, Os::Windows) {
            name.append(".exe");
        }
        name
    }

    /// The release download URL: the `latest` sentinel maps to the stable
    /// latest-release pattern, any other version to a tag-scoped pattern;
    /// no URL exists for an unsupported platform.
    pub open spec fn git_install_url_spec(version: Seq<char>, os: Os, arch: Arch) -> Option<
        Seq<char>,
    > {
        match downloaded_bin_name_spec(os, arch) {
            Option::None => Option::None,
            Option::Some(binary) => if version == latest_tag_spec() {
                Option::Some(
                    "https://github.com/tailwindlabs/tailwindcss/releases/latest/download/"@
                        + binary,
                )
            } else {
                Option::Some(
                    "https://github.com/tailwindlabs/tailwindcss/releases/download/"@ + version
                        + "/"@ + binary,
                )
            },
        }
    }

    /// Download URL for this version on the given platform, or `None` when
    /// the platform has no published artifact.
    pub fn git_install_url(&self, os: Os, arch: Arch) -> (r: Option<String>)
        ensures
            r.deep_view() == TailwindCli::git_install_url_spec(self.version@, os, arch),
    {
        match downloaded_bin_name(os, arch) {
            Option::None => Option::None,
            Option::Some(binary) => {
                if str_eq(self.version.as_str(), "latest") {
                    let mut url = String::from_str(
                        "https://github.com/tailwindlabs/tailwindcss/releases/latest/download/",
                    );
                    url.append(binary.as_str());
                    Option::Some(url)
                } else {
                    let mut url = String::from_str(
                        "https://github.com/tailwindlabs/tailwindcss/releases/download/",
                    );
                    url.append(self.version.as_str());
                    url.append("/");
                    url.append(binary.as_str());
                    Option::Some(url)
                }
            },
        }
    }
}

/// Resolve the tool to use. An explicit version token is normalized and
/// wins; otherwise a present input CSS file (reported by the caller)
/// autodetects the newest release, and the absence of both is an error
/// rather than a silent default.
pub fn resolve_tailwind(version: Option<String>, input_exists: bool) -> (r: Result<
    TailwindCli,
    ResolutionError,
>)
    ensures
        version matches Some(v) ==> (r matches Ok(t) && t.version@ == normalize_version_spec(v@)),
        version is None && input_exists ==> (r matches Ok(t) && t.version@ == latest_tag_spec()),
        version is None && !input_exists ==> r == Result::<
            TailwindCli,
            ResolutionError,
        >::Err(ResolutionError::NoInput),
{
    match version {
        Option::Some(v) => Result::Ok(TailwindCli::new(normalize_version(v))),
        Option::None => {
            match TailwindCli::autodetect(input_exists) {
                Option::Some(t) => Result::Ok(t),
                Option::None => Result::Err(ResolutionError::NoInput),
            }
        },
    }
}

} // verus!

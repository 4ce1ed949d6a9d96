//! Platform identification: mapping the host operating system and CPU
//! architecture to the fixed vocabulary of release-artifact names.

use vstd::prelude::*;
use vstd::string::StringExecFns;

verus! {

/// Operating systems that the release artifacts distinguish. Everything else
/// is `Other` and has no artifact.
#[derive(Clone, Copy, Debug, PartialEq, Eq, Structural)]
pub enum Os {
    Linux,
    MacOs,
    Windows,
    Other,
}

/// CPU architectures that the release artifacts distinguish. Everything else
/// is `Other` and has no artifact.
#[derive(Clone, Copy, Debug, PartialEq, Eq, Structural)]
pub enum Arch {
    X86_64,
    Aarch64,
    Other,
}

/// Relies on `target_lexicon::HOST.operating_system`: the operating system
/// this binary was compiled for. The result depends on the build target, so
/// nothing is promised of it.
#[verifier::external_body]
pub fn host_os() -> Os {
    match target_lexicon::HOST.operating_system {
        target_lexicon::OperatingSystem::Linux => Os::Linux,
        target_lexicon::OperatingSystem::Darwin(_) => Os::MacOs,
        target_lexicon::OperatingSystem::Windows => Os::Windows,
        _ => Os::Other,
    }
}

/// Relies on `target_lexicon::HOST.architecture`: the CPU architecture this
/// binary was compiled for. The result depends on the build target, so
/// nothing is promised of it.
#[verifier::external_body]
pub fn host_arch() -> Arch {
    match target_lexicon::HOST.architecture {
        target_lexicon::Architecture::X86_64 => Arch::X86_64,
        target_lexicon::Architecture::Aarch64(_) => Arch::Aarch64,
        _ => Arch::Other,
    }
}

/// The artifact name published for each supported platform pair; `None` for
/// every unsupported pair. On Windows the x64 artifact (with its executable
/// suffix) serves both supported architectures.
pub open spec fn downloaded_bin_name_spec(os: Os, arch: Arch) -> Option<Seq<char>> {
    match (os, arch) {
        (Os::Windows, Arch::X86_64) => Option::Some("tailwindcss-windows-x64.exe"@),
        (Os::Windows, Arch::Aarch64) => Option::Some("tailwindcss-windows-x64.exe"@),
        (Os::Linux, Arch::X86_64) => Option::Some("tailwindcss-linux-x64"@),
        (Os::Linux, Arch::Aarch64) => Option::Some("tailwindcss-linux-arm64"@),
        (Os::MacOs, Arch::X86_64) => Option::Some("tailwindcss-macos-x64"@),
        (Os::MacOs, Arch::Aarch64) => Option::Some("tailwindcss-macos-arm64"@),
        _ => Option::None,
    }
}

/// Name of the downloadable release artifact for the given platform, or
/// `None` when no artifact is published for it.
pub fn downloaded_bin_name(os: Os, arch: Arch) -> (r: Option<String>)
    ensures
        r.deep_view() == downloaded_bin_name_spec(os, arch),
{
    match (os, arch) {
        (Os::Windows, Arch::X86_64) => Option::Some(
            String::from_str("tailwindcss-windows-x64.exe"),
        ),
        (Os::Windows, Arch::Aarch64) => Option::Some(
            String::from_str("tailwindcss-windows-x64.exe"),
        ),
        (Os::Linux, Arch::X86_64) => Option::Some(String::from_str("tailwindcss-linux-x64")),
        (Os::Linux, Arch::Aarch64) => Option::Some(String::from_str("tailwindcss-linux-arm64")),
        (Os::MacOs, Arch::X86_64) => Option::Some(String::from_str("tailwindcss-macos-x64")),
        (Os::MacOs, Arch::Aarch64) => Option::Some(String::from_str("tailwindcss-macos-arm64")),
        _ => Option::None,
    }
}

/// Law: the set of supported platform pairs is fixed and enumerable — exactly
/// the product of the three supported operating systems and the two supported
/// architectures — and every supported pair has a non-empty artifact name.
pub proof fn downloaded_bin_name_total(os: Os, arch: Arch)
    ensures
        downloaded_bin_name_spec(os, arch) is Some <==> ((os == Os::Linux || os == Os::MacOs
            || os == Os::Windows) && (arch == Arch::X86_64 || arch == Arch::Aarch64)),
        downloaded_bin_name_spec(os, arch) matches Some(name) ==> name.len() > 0,
{
    reveal_strlit("tailwindcss-windows-x64.exe");
    reveal_strlit("tailwindcss-linux-x64");
    reveal_strlit("tailwindcss-linux-arm64");
    reveal_strlit("tailwindcss-macos-x64");
    reveal_strlit("tailwindcss-macos-arm64");
}

} // verus!

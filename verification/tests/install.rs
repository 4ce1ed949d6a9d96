use xilem_web_tailwindcss::install::check_download_status;
use xilem_web_tailwindcss::install::InstallAction;
use xilem_web_tailwindcss::install::InstallError;
use xilem_web_tailwindcss::platform::downloaded_bin_name;
use xilem_web_tailwindcss::platform::Arch;
use xilem_web_tailwindcss::platform::Os;
use xilem_web_tailwindcss::TailwindCli;
use xilem_web_tailwindcss::Workspace;

#[test]
fn artifact_labels_cover_exactly_the_supported_pairs() {
    let cases = [
        (Os::Linux, Arch::X86_64, Some("tailwindcss-linux-x64")),
        (Os::Linux, Arch::Aarch64, Some("tailwindcss-linux-arm64")),
        (Os::MacOs, Arch::X86_64, Some("tailwindcss-macos-x64")),
        (Os::MacOs, Arch::Aarch64, Some("tailwindcss-macos-arm64")),
        (Os::Windows, Arch::X86_64, Some("tailwindcss-windows-x64.exe")),
        (Os::Windows, Arch::Aarch64, Some("tailwindcss-windows-x64.exe")),
        (Os::Other, Arch::X86_64, None),
        (Os::Other, Arch::Aarch64, None),
        (Os::Linux, Arch::Other, None),
        (Os::MacOs, Arch::Other, None),
        (Os::Windows, Arch::Other, None),
        (Os::Other, Arch::Other, None),
    ];
    for (os, arch, expected) in cases {
        assert_eq!(
            downloaded_bin_name(os, arch),
            expected.map(|s| s.to_string())
        );
    }
}

#[test]
fn installed_bin_name_is_version_qualified() {
    let cli = TailwindCli::latest();
    assert_eq!(cli.installed_bin_name(Os::Linux), "tailwindcss-latest");
    let pinned = TailwindCli::new("v4.1.5".to_string());
    assert_eq!(pinned.installed_bin_name(Os::MacOs), "tailwindcss-v4.1.5");
    assert_eq!(
        pinned.installed_bin_name(Os::Windows),
        "tailwindcss-v4.1.5.exe"
    );
}

#[test]
fn install_urls_follow_the_release_patterns() {
    let latest = TailwindCli::latest();
    assert_eq!(
        latest.git_install_url(Os::Linux, Arch::X86_64).unwrap(),
        "https://github.com/tailwindlabs/tailwindcss/releases/latest/download/tailwindcss-linux-x64"
    );
    let pinned = TailwindCli::new("v4.1.5".to_string());
    assert_eq!(
        pinned.git_install_url(Os::MacOs, Arch::Aarch64).unwrap(),
        "https://github.com/tailwindlabs/tailwindcss/releases/download/v4.1.5/tailwindcss-macos-arm64"
    );
    assert!(pinned.git_install_url(Os::Other, Arch::X86_64).is_none());
}

#[test]
fn ensure_installed_short_circuits_on_existing_binary() {
    let cli = TailwindCli::latest();
    let first = cli
        .ensure_installed(false, None, "/data", false, Os::Linux, Arch::X86_64)
        .unwrap();
    assert_eq!(
        first,
        InstallAction::Download {
            url: "https://github.com/tailwindlabs/tailwindcss/releases/latest/download/tailwindcss-linux-x64"
                .to_string(),
            path: "/data/tailwind/tailwindcss-latest".to_string(),
        }
    );

    let second = cli
        .ensure_installed(false, None, "/data", true, Os::Linux, Arch::X86_64)
        .unwrap();
    assert_eq!(
        second,
        InstallAction::AlreadyInstalled {
            path: "/data/tailwind/tailwindcss-latest".to_string(),
        }
    );
}

#[test]
fn no_downloads_preference_never_reaches_the_network() {
    let cli = TailwindCli::latest();
    let found = cli
        .ensure_installed(
            true,
            Some("/usr/bin/tailwindcss".to_string()),
            "/data",
            false,
            Os::Linux,
            Arch::X86_64,
        )
        .unwrap();
    assert_eq!(
        found,
        InstallAction::UseSystem {
            path: "/usr/bin/tailwindcss".to_string(),
        }
    );

    let missing = cli.ensure_installed(true, None, "/data", false, Os::Linux, Arch::X86_64);
    assert_eq!(missing.unwrap_err(), InstallError::NotFound);
}

#[test]
fn unsupported_platform_fails_before_any_download() {
    let cli = TailwindCli::latest();
    let r = cli.ensure_installed(false, None, "/data", false, Os::Other, Arch::X86_64);
    assert_eq!(r.unwrap_err(), InstallError::UnsupportedPlatform);
}

#[test]
fn get_binary_path_is_the_versioned_cache_path() {
    let cli = TailwindCli::new("v4.1.5".to_string());
    let path = cli.get_binary_path(false, None, "/data", Os::Linux).unwrap();
    assert_eq!(path, "/data/tailwind/tailwindcss-v4.1.5");
    assert_eq!(TailwindCli::install_dir("/data"), "/data/tailwind");

    let system = cli
        .get_binary_path(true, Some("/opt/bin/tailwindcss".to_string()), "/data", Os::Linux)
        .unwrap();
    assert_eq!(system, "/opt/bin/tailwindcss");
    let missing = cli.get_binary_path(true, None, "/data", Os::Linux);
    assert_eq!(missing.unwrap_err(), InstallError::NotFound);
}

#[test]
fn non_success_statuses_are_download_failures() {
    assert_eq!(
        check_download_status(404).unwrap_err(),
        InstallError::Download { status: 404 }
    );
    assert_eq!(
        check_download_status(500).unwrap_err(),
        InstallError::Download { status: 500 }
    );
    assert_eq!(
        check_download_status(301).unwrap_err(),
        InstallError::Download { status: 301 }
    );
    assert!(check_download_status(200).is_ok());
    assert!(check_download_status(204).is_ok());
}

#[test]
fn data_dir_lookup_answers_on_this_machine() {
    if let Ok(dir) = Workspace::xilem_data_dir() {
        assert!(!dir.is_empty());
    }
}

use xilem_web_tailwindcss::paths::path_parent;
use xilem_web_tailwindcss::paths::resolve_input;
use xilem_web_tailwindcss::paths::resolve_output;
use xilem_web_tailwindcss::paths::resolve_path;
use xilem_web_tailwindcss::settings::env_flag;
use xilem_web_tailwindcss::settings::InstallPreference;
use xilem_web_tailwindcss::version::normalize_version;
use xilem_web_tailwindcss::version::resolve_tailwind;
use xilem_web_tailwindcss::version::ResolutionError;
use xilem_web_tailwindcss::CliSettings;
use xilem_web_tailwindcss::TailwindCli;

#[test]
fn version_shorthands_normalize_to_latest() {
    for token in ["v4", "4", "latest"] {
        let cli = resolve_tailwind(Some(token.to_string()), false).unwrap();
        assert_eq!(cli.version, "latest");
    }
}

#[test]
fn explicit_tags_round_trip_unchanged() {
    let cli = resolve_tailwind(Some("v4.1.5".to_string()), false).unwrap();
    assert_eq!(cli.version, "v4.1.5");
}

#[test]
fn normalization_is_idempotent_on_values() {
    for token in ["v4", "4", "latest", "v4.1.5", ""] {
        let once = normalize_version(token.to_string());
        let twice = normalize_version(once.clone());
        assert_eq!(once, twice);
    }
}

#[test]
fn autodetect_uses_latest_when_input_present() {
    let cli = TailwindCli::autodetect(true).unwrap();
    assert_eq!(cli.version, "latest");
    assert!(TailwindCli::autodetect(false).is_none());

    let resolved = resolve_tailwind(None, true).unwrap();
    assert_eq!(resolved.version, "latest");
}

#[test]
fn autodetect_failure_is_an_error_not_a_default() {
    let r = resolve_tailwind(None, false);
    assert_eq!(r.unwrap_err(), ResolutionError::NoInput);
    assert!(ResolutionError::NoInput.message().contains("tailwind.css"));
}

#[test]
fn default_paths_resolve_under_manifest_dir() {
    assert_eq!(resolve_input("/proj", None), "/proj/tailwind.css");
    let (output, parent) = resolve_output("/proj", None).unwrap();
    assert_eq!(output, "/proj/assets/tailwind.css");
    assert_eq!(parent, "/proj/assets");
}

#[test]
fn explicit_paths_resolve_absolute_or_relative() {
    assert_eq!(resolve_path("/proj", "/abs/in.css"), "/abs/in.css");
    assert_eq!(resolve_path("/proj", "rel/in.css"), "/proj/rel/in.css");
    assert_eq!(
        resolve_input("/proj", Some(&"custom.css".to_string())),
        "/proj/custom.css"
    );
    let (output, parent) = resolve_output("/proj", Some(&"/out/app.css".to_string())).unwrap();
    assert_eq!(output, "/out/app.css");
    assert_eq!(parent, "/out");
}

#[test]
fn path_parent_handles_root_and_bare_names() {
    assert_eq!(path_parent("/a"), Some("/".to_string()));
    assert_eq!(path_parent("/a/b"), Some("/a".to_string()));
    assert_eq!(path_parent("bare"), None);
    assert_eq!(path_parent("/"), None);
}

#[test]
fn env_flag_accepts_truthy_values_in_any_case() {
    for truthy in ["1", "true", "TRUE", "True", "tRuE", "yes", "YES", "Yes"] {
        assert!(env_flag(Some(&truthy.to_string())));
    }
    for falsy in ["0", "no", "false", "", "2", "truthy", "yes "] {
        assert!(!env_flag(Some(&falsy.to_string())));
    }
    assert!(!env_flag(None));
}

#[test]
fn settings_explicit_preference_wins_over_environment() {
    let mut settings = CliSettings::new();
    assert_eq!(settings.preference, InstallPreference::Unset);
    assert!(!settings.prefer_no_downloads(false));
    assert!(settings.prefer_no_downloads(true));

    settings.set_prefer_no_downloads(true);
    assert!(settings.prefer_no_downloads(false));

    settings.set_prefer_no_downloads(false);
    assert!(!settings.prefer_no_downloads(true));
}

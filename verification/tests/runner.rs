use xilem_web_tailwindcss::process::stdio_policy;
use xilem_web_tailwindcss::process::tailwind_args;
use xilem_web_tailwindcss::process::StdioPolicy;
use xilem_web_tailwindcss::process::ProcStatus;
use xilem_web_tailwindcss::process::RunError;
use xilem_web_tailwindcss::process::RunOutput;
use xilem_web_tailwindcss::strutil::u16_to_string;
use xilem_web_tailwindcss::trunk::no_color_value;
use xilem_web_tailwindcss::trunk::trunk_serve_args;
use xilem_web_tailwindcss::trunk::TrunkServeOptions;
use xilem_web_tailwindcss::TailwindCli;

fn strings(v: &[&str]) -> Vec<String> {
    v.iter().map(|s| s.to_string()).collect()
}

#[test]
fn tailwind_args_follow_the_fixed_contract() {
    assert_eq!(
        tailwind_args("/p/in.css", "/p/out.css", false, false),
        strings(&["--input", "/p/in.css", "--output", "/p/out.css"])
    );
    assert_eq!(
        tailwind_args("/p/in.css", "/p/out.css", true, false),
        strings(&["--input", "/p/in.css", "--output", "/p/out.css", "--watch"])
    );
    assert_eq!(
        tailwind_args("/p/in.css", "/p/out.css", false, true),
        strings(&["--input", "/p/in.css", "--output", "/p/out.css", "--minify"])
    );
    assert_eq!(
        tailwind_args("/p/in.css", "/p/out.css", true, true),
        strings(&[
            "--input",
            "/p/in.css",
            "--output",
            "/p/out.css",
            "--watch",
            "--minify"
        ])
    );
}

#[test]
fn run_once_requires_success_and_surfaces_warnings() {
    let cli = TailwindCli::latest();

    let clean = RunOutput {
        status: ProcStatus::exited(0),
        stderr: Vec::new(),
    };
    assert_eq!(cli.run_once(clean).unwrap(), None);

    let noisy = RunOutput {
        status: ProcStatus::exited(0),
        stderr: b"warning: something".to_vec(),
    };
    assert_eq!(
        cli.run_once(noisy).unwrap(),
        Some(b"warning: something".to_vec())
    );

    let failed = RunOutput {
        status: ProcStatus::exited(2),
        stderr: b"boom".to_vec(),
    };
    assert_eq!(
        cli.run_once(failed).unwrap_err(),
        RunError::ToolFailed {
            status: ProcStatus::exited(2)
        }
    );
}

#[test]
fn watch_fails_on_any_failing_exit() {
    let cli = TailwindCli::latest();
    assert!(cli.watch(ProcStatus::exited(0)).is_ok());
    assert_eq!(
        cli.watch(ProcStatus::exited(1)).unwrap_err(),
        RunError::WatchExited {
            status: ProcStatus::exited(1)
        }
    );
    assert_eq!(
        cli.watch(ProcStatus::signaled()).unwrap_err(),
        RunError::WatchExited {
            status: ProcStatus::signaled()
        }
    );
}

#[test]
fn one_shot_runs_capture_and_interactive_runs_inherit() {
    assert_eq!(stdio_policy(false), StdioPolicy::Captured);
    assert_eq!(stdio_policy(true), StdioPolicy::Inherited);
}

#[test]
fn trunk_args_default_is_bare_serve() {
    let options = TrunkServeOptions::default();
    assert_eq!(trunk_serve_args(&options), strings(&["serve"]));
}

#[test]
fn trunk_args_include_every_present_option_in_order() {
    let options = TrunkServeOptions {
        config: Some("Trunk.toml".to_string()),
        address: strings(&["127.0.0.1", "0.0.0.0"]),
        port: Some(8080),
        open_browser: true,
        no_autoreload: true,
        no_spa: false,
        watch: strings(&["src"]),
        ignore: strings(&["target"]),
        dist: Some("dist".to_string()),
        release: true,
        public_url: Some("/app/".to_string()),
    };
    assert_eq!(
        trunk_serve_args(&options),
        strings(&[
            "serve",
            "--config",
            "Trunk.toml",
            "--address",
            "127.0.0.1",
            "--address",
            "0.0.0.0",
            "--port",
            "8080",
            "--open",
            "--no-autoreload",
            "--watch",
            "src",
            "--ignore",
            "target",
            "--dist",
            "dist",
            "--release",
            "--public-url",
            "/app/"
        ])
    );
}

#[test]
fn no_color_is_forwarded_only_for_the_two_known_values() {
    assert_eq!(no_color_value(Some(&"1".to_string())), Some("true".to_string()));
    assert_eq!(no_color_value(Some(&"0".to_string())), Some("false".to_string()));
    assert_eq!(no_color_value(Some(&"2".to_string())), None);
    assert_eq!(no_color_value(Some(&"".to_string())), None);
    assert_eq!(no_color_value(None), None);
}

#[test]
fn u16_renders_in_decimal() {
    assert_eq!(u16_to_string(0), "0");
    assert_eq!(u16_to_string(7), "7");
    assert_eq!(u16_to_string(8080), "8080");
    assert_eq!(u16_to_string(65535), "65535");
}

//! Tooling core for managing a Tailwind CSS binary from a Rust build helper:
//! resolving a requested version to a concrete release, locating or installing
//! the binary, building the exact argument lists for one-shot and watch runs,
//! and coordinating two supervised processes with a first-exit-wins policy.
//!
//! All decisions (which artifact fits the host, which URL to fetch, which
//! process outcome counts as failure) are made here; the surrounding binary
//! performs the actual network, filesystem and process work and feeds the
//! observed plain values back in.

pub mod classes;
pub mod coordinator;
pub mod install;
pub mod paths;
pub mod platform;
pub mod process;
pub mod settings;
pub mod strutil;
pub mod trunk;
pub mod version;

pub use classes::tw;
pub use classes::TwInput;
pub use install::Workspace;
pub use settings::CliSettings;
pub use version::TailwindCli;

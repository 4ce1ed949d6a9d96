//! Process-wide installation preferences: set once at startup, read
//! everywhere.
//!
//! A tri-state flag either forces the answer to "prefer no downloads" or
//! defers to an environment-derived default. The state is an explicit value
//! handed through every call instead of a global.

use vstd::prelude::*;

use crate::strutil::lower_spec;
use crate::strutil::str_eq_ignore_ascii_case;

verus! {

/// Tri-state preference for how the Tailwind binary is obtained: downloads
/// allowed, downloads avoided (use a system binary), or left unset so that an
/// environment-derived default decides.
#[derive(Clone, Copy, Debug, PartialEq, Eq, Structural)]
pub enum InstallPreference {
    AllowDownloads,
    PreferNoDownloads,
    Unset,
}

/// Settings shared by every CLI operation. Initialized with the preference
/// unset; overridden at most once at startup.
#[derive(Clone, Copy, Debug, PartialEq, Eq, Structural)]
pub struct CliSettings {
    pub preference: InstallPreference,
}

impl CliSettings {
    /// Fresh settings: no preference has been expressed yet.
    pub fn new() -> (r: CliSettings)
        ensures
            r.preference == InstallPreference::Unset,
    {
        CliSettings { preference: InstallPreference::Unset }
    }

    /// Record an explicit preference, overriding the environment default.
    pub fn set_prefer_no_downloads(&mut self, value: bool)
        ensures
            final(self).preference == (if value {
                InstallPreference::PreferNoDownloads
            } else {
                InstallPreference::AllowDownloads
            }),
    {
        if value {
            self.preference = InstallPreference::PreferNoDownloads;
        } else {
            self.preference = InstallPreference::AllowDownloads;
        }
    }

    /// Whether downloads should be avoided: an explicit preference wins,
    /// otherwise `env_default` (the environment-derived default) decides.
    pub open spec fn prefer_no_downloads_spec(self, env_default: bool) -> bool {
        match self.preference {
            InstallPreference::AllowDownloads => false,
            InstallPreference::PreferNoDownloads => true,
            InstallPreference::Unset => env_default,
        }
    }

    /// Answer "prefer no downloads?" given the environment-derived default
    /// that applies when no explicit preference was set.
    pub fn prefer_no_downloads(&self, env_default: bool) -> (r: bool)
        ensures
            r == self.prefer_no_downloads_spec(env_default),
    {
        match self.preference {
            InstallPreference::AllowDownloads => false,
            InstallPreference::PreferNoDownloads => true,
            InstallPreference::Unset => env_default,
        }
    }
}

/// The environment values that count as "truthy" for the no-downloads flag:
/// `1`, `true` and `yes`, in any case.
pub open spec fn env_flag_spec(value: Option<Seq<char>>) -> bool {
    match value {
        Option::None => false,
        Option::Some(v) => lower_spec(v) == "1"@ || lower_spec(v) == "true"@ || lower_spec(v)
            == "yes"@,
    }
}

/// Interpret the value of a boolean environment variable: absent means false,
/// and the truthy spellings enable the flag whatever their case.
pub fn env_flag(value: Option<&String>) -> (r: bool)
    ensures
        r == env_flag_spec(value.deep_view()),
{
    proof {
        reveal_strlit("1");
        reveal_strlit("true");
        reveal_strlit("yes");
        assert(lower_spec("1"@) =~= "1"@);
        assert(lower_spec("true"@) =~= "true"@);
        assert(lower_spec("yes"@) =~= "yes"@);
    }
    match value {
        Option::None => false,
        Option::Some(v) => {
            let s = v.as_str();
            str_eq_ignore_ascii_case(s, "1") || str_eq_ignore_ascii_case(s, "true")
                || str_eq_ignore_ascii_case(s, "yes")
        },
    }
}

} // verus!

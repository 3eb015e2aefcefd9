//! Candidate locations of profile files.
//!
//! A profile named `p` is looked for in an ordered list of candidate paths
//! built from: the per-user configuration directory (when determinable), a
//! platform-specific system-wide configuration directory, and the current
//! working directory.  A source that cannot be determined on the running
//! platform is omitted, never an error.  No probing happens here: existence
//! checking belongs to the caller.

use vstd::prelude::*;

verus! {

/// The flavours of platform that decide the system-wide configuration
/// directory: a fixed well-known path on Unix-like systems, an
/// environment-derived path on Windows, none on sandboxed targets.
#[derive(Clone, Copy, Debug, PartialEq, Eq, Structural)]
pub enum Platform {
    Unix,
    Windows,
    Restricted,
}

/// A snapshot of everything platform-dependent that path resolution reads,
/// so that the resolution itself is a pure function of this value.
pub struct ConfigLocations {
    /// Which system-wide directory rule applies.
    pub platform: Platform,
    /// The per-user configuration directory, if determinable.
    pub user_config_dir: Option<String>,
    /// The `PROGRAMDATA` directory on Windows, if set.
    pub program_data: Option<String>,
}

/// Mathematical image of [`ConfigLocations`].
pub struct ConfigLocationsV {
    pub platform: Platform,
    pub user_config_dir: Option<Seq<char>>,
    pub program_data: Option<Seq<char>>,
}

impl View for ConfigLocations {
    type V = ConfigLocationsV;

    open spec fn view(&self) -> ConfigLocationsV {
        ConfigLocationsV {
            platform: self.platform,
            user_config_dir: self.user_config_dir.deep_view(),
            program_data: self.program_data.deep_view(),
        }
    }
}

/// A file name appended to a directory.
pub open spec fn spec_join_path(dir: Seq<char>, filename: Seq<char>) -> Seq<char> {
    dir + "/"@ + filename
}

/// The system-wide configuration directory, where the platform has one.
pub open spec fn spec_global_config_dir(
    platform: Platform,
    program_data: Option<Seq<char>>,
) -> Option<Seq<char>> {
    match platform {
        Platform::Unix => Some("/etc/rustic"@),
        Platform::Windows => match program_data {
            Some(p) => Some(p + "/rustic/config"@),
            None => None,
        },
        Platform::Restricted => None,
    }
}

/// The ordered candidate paths for a file: per-user directory, system-wide
/// directory, working directory; undeterminable sources are skipped.
pub open spec fn spec_config_paths(locs: ConfigLocationsV, filename: Seq<char>) -> Seq<Seq<char>> {
    let user: Seq<Seq<char>> = match locs.user_config_dir {
        Some(d) => seq![spec_join_path(d, filename)],
        None => seq![],
    };
    let system: Seq<Seq<char>> = match spec_global_config_dir(locs.platform, locs.program_data) {
        Some(d) => seq![spec_join_path(d, filename)],
        None => seq![],
    };
    user + system + seq![spec_join_path("."@, filename)]
}

/// Relies on `directories::ProjectDirs::from` (with qualifier and
/// organization empty and application `rustic`) and `config_dir`: the
/// per-user configuration directory.  The result depends on the user's
/// environment, so nothing is promised of it.
#[verifier::external_body]
fn user_config_dir() -> (r: Option<String>) {
    directories::ProjectDirs::from("", "", "rustic")
        .map(|d| d.config_dir().to_string_lossy().into_owned())
}

impl ConfigLocations {
    /// The locations as observed now: the per-user directory as the running
    /// environment reports it, and the given platform facts.
    pub fn detect(platform: Platform, program_data: Option<String>) -> (r: Self)
        ensures
            r@.platform == platform,
            r@.program_data == program_data.deep_view(),
    {
        ConfigLocations { platform, user_config_dir: user_config_dir(), program_data }
    }

    /// Fully explicit construction, for callers that already hold a snapshot.
    pub fn new(
        platform: Platform,
        user_config_dir: Option<String>,
        program_data: Option<String>,
    ) -> (r: Self)
        ensures
            r@.platform == platform,
            r@.user_config_dir == user_config_dir.deep_view(),
            r@.program_data == program_data.deep_view(),
    {
        ConfigLocations { platform, user_config_dir, program_data }
    }
}

fn join_path(dir: &str, filename: &str) -> (r: String)
    ensures
        r@ == spec_join_path(dir@, filename@),
{
    String::from_str(dir).concat("/").concat(filename)
}

/// The system-wide configuration directory for the given platform facts.
pub fn get_global_config_path(platform: Platform, program_data: &Option<String>) -> (r: Option<
    String,
>)
    ensures
        r.deep_view() == spec_global_config_dir(platform, program_data.deep_view()),
{
    match platform {
        Platform::Unix => Some(String::from_str("/etc/rustic")),
        Platform::Windows => match program_data {
            Some(p) => Some(p.clone().concat("/rustic/config")),
            None => None,
        },
        Platform::Restricted => None,
    }
}

/// The ordered candidate paths to probe for `filename`.
pub fn get_config_paths(locs: &ConfigLocations, filename: &str) -> (r: Vec<String>)
    ensures
        r.deep_view() == spec_config_paths(locs@, filename@),
{
    let mut out: Vec<String> = Vec::new();
    match &locs.user_config_dir {
        Some(d) => out.push(join_path(d.as_str(), filename)),
        None => (),
    }
    match get_global_config_path(locs.platform, &locs.program_data) {
        Some(d) => out.push(join_path(d.as_str(), filename)),
        None => (),
    }
    out.push(join_path(".", filename));
    proof {
        assert(out.deep_view() =~= spec_config_paths(locs@, filename@));
    }
    out
}

} // verus!

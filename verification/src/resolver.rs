//! Which settings file is authoritative: the session's override first, then the
//! path that the pointer file remembers, then the default location.
//!
//! Resolution needs the host three times at most: to read the pointer file, to
//! test whether the remembered path still exists, and to create the default
//! directory. Each `ResolveStep` that is not final names the one thing the shell
//! has to do next; the shell reports what it saw to the function of that step and
//! gets the following step back.

use vstd::prelude::*;
use vstd::string::*;
use crate::error::{failure, ConfigError, ConfigFault};
use crate::host::{host_config_dir, join_path, joined_path};
use crate::pointer::{candidate_path, trimmed};

verus! {

/// The session's state: the settings path chosen for this run, if any.
#[derive(Debug, Clone, PartialEq, Eq)]
pub struct AppState {
    pub custom_config_path: Option<String>,
}

impl View for AppState {
    type V = Option<Seq<char>>;

    open spec fn view(&self) -> Option<Seq<char>> {
        match self.custom_config_path {
            Some(path) => Some(path@),
            None => None,
        }
    }
}

impl Default for AppState {
    /// A session without an override.
    fn default() -> (state: AppState)
        ensures
            state@ is None,
    {
        AppState { custom_config_path: None }
    }
}

impl AppState {
    /// Installs `path` as the session's override; whatever was chosen before is
    /// replaced as a whole.
    pub fn install_override(&mut self, path: String)
        ensures
            final(self)@ == Some(path@),
    {
        self.custom_config_path = Some(path);
    }
}

/// Where a resolved location came from.
#[derive(Debug, Clone, Copy, PartialEq, Eq)]
pub enum ConfigSource {
    SessionOverride,
    PersistedPointer,
    Default,
}

/// A resolved settings location.
#[derive(Debug, Clone, PartialEq, Eq)]
pub struct ConfigLocation {
    pub path: String,
    pub source: ConfigSource,
}

/// The mathematical value of a `ConfigLocation`.
pub struct Location {
    pub path: Seq<char>,
    pub source: ConfigSource,
}

impl View for ConfigLocation {
    type V = Location;

    open spec fn view(&self) -> Location {
        Location { path: self.path@, source: self.source }
    }
}

/// The application's paths under a per-user configuration directory.
#[derive(Debug, Clone, PartialEq, Eq)]
pub struct ConfigPaths {
    /// The application's own directory.
    pub dir: String,
    /// The pointer file.
    pub pointer: String,
    /// The default settings file.
    pub settings: String,
}

/// The mathematical value of a `ConfigPaths`.
pub struct Paths {
    pub dir: Seq<char>,
    pub pointer: Seq<char>,
    pub settings: Seq<char>,
}

impl View for ConfigPaths {
    type V = Paths;

    open spec fn view(&self) -> Paths {
        Paths { dir: self.dir@, pointer: self.pointer@, settings: self.settings@ }
    }
}

/// The application's paths under `config_dir`: its directory `imagers`, and in
/// it the pointer file `last_config.txt` and the settings file `settings.json`.
pub open spec fn paths_under(config_dir: Seq<char>) -> Paths {
    let dir = joined_path(config_dir, "imagers"@);
    Paths {
        dir,
        pointer: joined_path(dir, "last_config.txt"@),
        settings: joined_path(dir, "settings.json"@),
    }
}

impl ConfigPaths {
    /// The application's paths under `config_dir`.
    pub fn under(config_dir: &str) -> (paths: ConfigPaths)
        ensures
            paths@ == paths_under(config_dir@),
    {
        let dir = join_path(config_dir, "imagers");
        let pointer = join_path(dir.as_str(), "last_config.txt");
        let settings = join_path(dir.as_str(), "settings.json");
        ConfigPaths { dir, pointer, settings }
    }
}

/// Where a resolution stands: at its result, or at the one thing the shell has
/// to do before it can go on.
#[derive(Debug, Clone, PartialEq, Eq)]
pub enum ResolveStep {
    /// Resolution ended with this location.
    Resolved(ConfigLocation),
    /// Resolution ended with this error.
    Failed(ConfigError),
    /// Read the text of `paths.pointer` and report it to `pointer_read`.
    ReadPointer { paths: ConfigPaths },
    /// Test whether `candidate` exists and report it to `candidate_probed`.
    ProbeCandidate { paths: ConfigPaths, candidate: String },
    /// Create `paths.dir` unless it exists and report it to `default_dir_created`.
    CreateDefaultDir { paths: ConfigPaths },
}

/// The mathematical value of a `ResolveStep`.
pub enum Step {
    Resolved(Location),
    Failed(ConfigFault),
    ReadPointer { paths: Paths },
    ProbeCandidate { paths: Paths, candidate: Seq<char> },
    CreateDefaultDir { paths: Paths },
}

impl View for ResolveStep {
    type V = Step;

    open spec fn view(&self) -> Step {
        match self {
            ResolveStep::Resolved(location) => Step::Resolved(location@),
            ResolveStep::Failed(error) => Step::Failed(error@),
            ResolveStep::ReadPointer { paths } => Step::ReadPointer { paths: paths@ },
            ResolveStep::ProbeCandidate { paths, candidate } => Step::ProbeCandidate {
                paths: paths@,
                candidate: candidate@,
            },
            ResolveStep::CreateDefaultDir { paths } => Step::CreateDefaultDir { paths: paths@ },
        }
    }
}

/// The first step: an override ends the resolution at once, unchecked; without
/// one the host must name a configuration directory, and the pointer file under
/// it is read next.
pub open spec fn begin(chosen: Option<Seq<char>>, config_dir: Option<Seq<char>>) -> Step {
    match chosen {
        Some(path) => Step::Resolved(Location { path, source: ConfigSource::SessionOverride }),
        None => match config_dir {
            Some(dir) => Step::ReadPointer { paths: paths_under(dir) },
            None => Step::Failed(ConfigFault::ConfigDirUnavailable),
        },
    }
}

/// The step after the pointer file was read: its trimmed text is the candidate
/// to test; a file that is missing or unreadable leaves the default.
pub open spec fn after_pointer_read(paths: Paths, text: Option<Seq<char>>) -> Step {
    match text {
        Some(text) => Step::ProbeCandidate { paths, candidate: trimmed(text) },
        None => Step::CreateDefaultDir { paths },
    }
}

/// The step after the candidate was tested: a candidate that exists is the
/// location; one that does not is dropped in favour of the default.
pub open spec fn after_probe(paths: Paths, candidate: Seq<char>, exists: bool) -> Step {
    if exists {
        Step::Resolved(Location { path: candidate, source: ConfigSource::PersistedPointer })
    } else {
        Step::CreateDefaultDir { paths }
    }
}

/// The step after the default directory was seen to: the default settings file
/// is the location, unless the directory could not be created.
pub open spec fn after_dir_created(paths: Paths, failure: Option<Seq<char>>) -> Step {
    match failure {
        None => Step::Resolved(Location { path: paths.settings, source: ConfigSource::Default }),
        Some(reason) => Step::Failed(ConfigFault::IOFailure(reason)),
    }
}

/// Starts a resolution for `state`, given the host's configuration directory.
pub fn get_config_path_in(state: &AppState, config_dir: Option<String>) -> (step: ResolveStep)
    ensures
        step@ == begin(state@, config_dir.deep_view()),
{
    match &state.custom_config_path {
        Some(path) => ResolveStep::Resolved(
            ConfigLocation { path: path.clone(), source: ConfigSource::SessionOverride },
        ),
        None => match config_dir {
            Some(dir) => ResolveStep::ReadPointer { paths: ConfigPaths::under(dir.as_str()) },
            None => ResolveStep::Failed(ConfigError::ConfigDirUnavailable),
        },
    }
}

/// Starts a resolution for `state`. The host is asked for its configuration
/// directory only where the session has no override; whatever it answers, the
/// step is the one that `begin` gives for that answer.
pub fn get_config_path(state: &AppState) -> (step: ResolveStep)
    ensures
        exists|config_dir: Option<Seq<char>>| step@ == begin(state@, config_dir),
{
    let config_dir = match &state.custom_config_path {
        Some(_) => None,
        None => host_config_dir(),
    };
    let ghost seen = config_dir.deep_view();
    let step = get_config_path_in(state, config_dir);
    assert(step@ == begin(state@, seen));
    step
}

/// Takes the shell's report on the pointer file: its text, or `None` where the
/// file is missing or cannot be read.
pub fn pointer_read(paths: ConfigPaths, text: Option<String>) -> (step: ResolveStep)
    ensures
        step@ == after_pointer_read(paths@, text.deep_view()),
{
    match text {
        Some(text) => {
            let candidate = candidate_path(text.as_str());
            ResolveStep::ProbeCandidate { paths, candidate }
        },
        None => ResolveStep::CreateDefaultDir { paths },
    }
}

/// Takes the shell's report on whether `candidate` exists.
pub fn candidate_probed(paths: ConfigPaths, candidate: String, exists: bool) -> (step: ResolveStep)
    ensures
        step@ == after_probe(paths@, candidate@, exists),
{
    if exists {
        ResolveStep::Resolved(
            ConfigLocation { path: candidate, source: ConfigSource::PersistedPointer },
        )
    } else {
        ResolveStep::CreateDefaultDir { paths }
    }
}

/// Takes the shell's report on the default directory: `Ok` where it exists now,
/// else the host's reason.
pub fn default_dir_created(paths: ConfigPaths, outcome: Result<(), String>) -> (step: ResolveStep)
    ensures
        step@ == after_dir_created(paths@, failure(outcome)),
{
    match outcome {
        Ok(_) => ResolveStep::Resolved(
            ConfigLocation { path: paths.settings, source: ConfigSource::Default },
        ),
        Err(reason) => ResolveStep::Failed(ConfigError::IOFailure(reason)),
    }
}

/// What the resolver can see of a host: the configuration directory it names, the
/// text files that can be read, the paths that exist, and the directories that
/// cannot be created, each with the host's reason.
pub struct HostModel {
    pub config_dir: Option<Seq<char>>,
    pub files: Map<Seq<char>, Seq<char>>,
    pub existing: Set<Seq<char>>,
    pub uncreatable: Map<Seq<char>, Seq<char>>,
}

/// A resolution that ended well, at `path` taken from `source`.
pub open spec fn found(path: Seq<char>, source: ConfigSource) -> Result<Location, ConfigFault> {
    Ok(Location { path, source })
}

/// The settings location for a session on a host, stated at once: the override
/// where the session has one; else the trimmed text of the pointer file where
/// that file can be read and the path it names exists; else the default settings
/// file, whose directory is created first.
pub open spec fn resolution(chosen: Option<Seq<char>>, host: HostModel) -> Result<
    Location,
    ConfigFault,
> {
    match chosen {
        Some(path) => Ok(Location { path, source: ConfigSource::SessionOverride }),
        None => match host.config_dir {
            None => Err(ConfigFault::ConfigDirUnavailable),
            Some(config_dir) => {
                let paths = paths_under(config_dir);
                if host.files.contains_key(paths.pointer) && host.existing.contains(
                    trimmed(host.files[paths.pointer]),
                ) {
                    Ok(
                        Location {
                            path: trimmed(host.files[paths.pointer]),
                            source: ConfigSource::PersistedPointer,
                        },
                    )
                } else if host.uncreatable.contains_key(paths.dir) {
                    Err(ConfigFault::IOFailure(host.uncreatable[paths.dir]))
                } else {
                    Ok(Location { path: paths.settings, source: ConfigSource::Default })
                }
            },
        },
    }
}

/// The step that follows `step` once a shell on `host` has done what `step` asks
/// and reported it. A final step stays as it is.
pub open spec fn answered(step: Step, host: HostModel) -> Step {
    match step {
        Step::ReadPointer { paths } => after_pointer_read(
            paths,
            if host.files.contains_key(paths.pointer) {
                Some(host.files[paths.pointer])
            } else {
                None
            },
        ),
        Step::ProbeCandidate { paths, candidate } => after_probe(
            paths,
            candidate,
            host.existing.contains(candidate),
        ),
        Step::CreateDefaultDir { paths } => after_dir_created(
            paths,
            if host.uncreatable.contains_key(paths.dir) {
                Some(host.uncreatable[paths.dir])
            } else {
                None
            },
        ),
        _ => step,
    }
}

/// What a final step stands for.
pub open spec fn step_result(step: Step) -> Option<Result<Location, ConfigFault>> {
    match step {
        Step::Resolved(location) => Some(Ok(location)),
        Step::Failed(fault) => Some(Err(fault)),
        _ => None,
    }
}

/// The steps carry out the resolution: a shell that starts with `begin` and
/// answers each step from what the host shows is at a final step after three
/// answers at most, and that step holds exactly `resolution`.
pub proof fn lemma_steps_reach_resolution(chosen: Option<Seq<char>>, host: HostModel)
    ensures
        step_result(answered(answered(answered(begin(chosen, host.config_dir), host), host), host))
            == Some(resolution(chosen, host)),
{
}

/// An override is returned as it is, whatever the host holds.
pub proof fn lemma_override_wins(path: Seq<char>, host: HostModel)
    ensures
        resolution(Some(path), host) == found(path, ConfigSource::SessionOverride),
{
}

/// A pointer file that names a path which does not exist is passed over and is
/// never itself an error: resolution goes on to the default settings file. The
/// one error left is that of the default location, whose directory may be
/// impossible to create.
pub proof fn lemma_stale_pointer_falls_back(host: HostModel)
    requires
        host.config_dir is Some,
        host.files.contains_key(paths_under(host.config_dir->0).pointer),
        !host.existing.contains(trimmed(host.files[paths_under(host.config_dir->0).pointer])),
    ensures
        !host.uncreatable.contains_key(paths_under(host.config_dir->0).dir) ==> resolution(
            None,
            host,
        ) == found(paths_under(host.config_dir->0).settings, ConfigSource::Default),
        host.uncreatable.contains_key(paths_under(host.config_dir->0).dir) ==> resolution(
            None,
            host,
        ) == Err::<Location, ConfigFault>(
            ConfigFault::IOFailure(host.uncreatable[paths_under(host.config_dir->0).dir]),
        ),
{
}

/// A location that came from the pointer file exists on the host.
pub proof fn lemma_persisted_location_exists(chosen: Option<Seq<char>>, host: HostModel)
    ensures
        resolution(chosen, host) matches Ok(location) ==> (location.source
            == ConfigSource::PersistedPointer ==> host.existing.contains(location.path)),
{
}

} // verus!

use std::collections::{HashMap, HashSet};

use imagers_core::error::{ConfigError, StoreError};
use imagers_core::pointer::{candidate_path, cut_text};
use imagers_core::resolver::{
    candidate_probed, default_dir_created, get_config_path, get_config_path_in, pointer_read,
    AppState, ConfigLocation, ConfigPaths, ConfigSource, ResolveStep,
};
use imagers_core::store::{set_custom_config_path, set_custom_config_path_in, written, PointerWrite};

/// A host kept in memory: what a shell would find on disk.
struct Host {
    config_dir: Option<String>,
    files: HashMap<String, String>,
    existing: HashSet<String>,
    uncreatable: HashMap<String, String>,
    asked: Vec<String>,
}

impl Host {
    fn new(config_dir: Option<&str>) -> Host {
        Host {
            config_dir: config_dir.map(String::from),
            files: HashMap::new(),
            existing: HashSet::new(),
            uncreatable: HashMap::new(),
            asked: Vec::new(),
        }
    }

    fn perform(&mut self, write: &PointerWrite) {
        self.existing.insert(write.dir.clone());
        self.existing.insert(write.file.clone());
        self.files.insert(write.file.clone(), write.contents.clone());
    }

    /// Runs a resolution as a shell does: answers every step from what the host holds.
    fn resolve(&mut self, state: &AppState) -> Result<ConfigLocation, ConfigError> {
        let mut step = get_config_path_in(state, self.config_dir.clone());
        loop {
            step = match step {
                ResolveStep::Resolved(location) => return Ok(location),
                ResolveStep::Failed(error) => return Err(error),
                ResolveStep::ReadPointer { paths } => {
                    self.asked.push(format!("read {}", paths.pointer));
                    let text = self.files.get(&paths.pointer).cloned();
                    pointer_read(paths, text)
                }
                ResolveStep::ProbeCandidate { paths, candidate } => {
                    self.asked.push(format!("probe {}", candidate));
                    let exists = self.existing.contains(&candidate);
                    candidate_probed(paths, candidate, exists)
                }
                ResolveStep::CreateDefaultDir { paths } => {
                    self.asked.push(format!("mkdir {}", paths.dir));
                    let outcome = match self.uncreatable.get(&paths.dir) {
                        Some(reason) => Err(reason.clone()),
                        None => {
                            self.existing.insert(paths.dir.clone());
                            Ok(())
                        }
                    };
                    default_dir_created(paths, outcome)
                }
            };
        }
    }
}

fn location(path: &str, source: ConfigSource) -> ConfigLocation {
    ConfigLocation { path: path.to_string(), source }
}

#[test]
fn paths_lie_under_the_application_directory() {
    let paths = ConfigPaths::under("/home/u/.config");
    assert_eq!(paths.dir, "/home/u/.config/imagers");
    assert_eq!(paths.pointer, "/home/u/.config/imagers/last_config.txt");
    assert_eq!(paths.settings, "/home/u/.config/imagers/settings.json");
}

#[test]
fn paths_under_a_directory_with_a_trailing_separator() {
    let paths = ConfigPaths::under("/cfg/");
    assert_eq!(paths.dir, "/cfg/imagers");
    assert_eq!(paths.settings, "/cfg/imagers/settings.json");
}

#[test]
fn default_state_has_no_override() {
    let state = AppState::default();
    assert_eq!(state.custom_config_path, None);
}

#[test]
fn first_run_resolves_to_the_default_and_creates_its_directory() {
    let mut host = Host::new(Some("/cfg"));
    let state = AppState::default();
    assert_eq!(
        host.resolve(&state),
        Ok(location("/cfg/imagers/settings.json", ConfigSource::Default))
    );
    assert!(host.existing.contains("/cfg/imagers"));
    assert!(!host.existing.contains("/cfg/imagers/settings.json"));
    assert_eq!(
        host.asked,
        vec!["read /cfg/imagers/last_config.txt".to_string(), "mkdir /cfg/imagers".to_string()]
    );
}

#[test]
fn override_is_returned_without_touching_the_host() {
    let mut host = Host::new(None);
    let mut state = AppState::default();
    state.install_override("/nowhere/settings.json".to_string());
    assert_eq!(
        host.resolve(&state),
        Ok(location("/nowhere/settings.json", ConfigSource::SessionOverride))
    );
    assert!(host.asked.is_empty());
}

#[test]
fn override_is_returned_whatever_the_host_answers() {
    let mut state = AppState::default();
    state.install_override("/x.json".to_string());
    assert_eq!(
        get_config_path(&state),
        ResolveStep::Resolved(location("/x.json", ConfigSource::SessionOverride))
    );
}

#[test]
fn resolution_asks_the_host_where_nothing_is_chosen() {
    let state = AppState::default();
    match get_config_path(&state) {
        ResolveStep::ReadPointer { paths } => {
            assert!(paths.pointer.ends_with("last_config.txt"));
            assert!(paths.settings.ends_with("settings.json"));
            assert!(paths.pointer.starts_with(&paths.dir));
            assert!(paths.dir.ends_with("imagers"));
        }
        ResolveStep::Failed(error) => assert_eq!(error, ConfigError::ConfigDirUnavailable),
        other => panic!("unexpected first step: {:?}", other),
    }
}

#[test]
fn missing_config_dir_is_an_error() {
    let mut host = Host::new(None);
    let state = AppState::default();
    assert_eq!(host.resolve(&state), Err(ConfigError::ConfigDirUnavailable));
    assert_eq!(ConfigError::ConfigDirUnavailable.message(), "No config dir");
}

#[test]
fn pointer_to_an_existing_file_is_followed() {
    let mut host = Host::new(Some("/cfg"));
    host.files.insert("/cfg/imagers/last_config.txt".to_string(), "/data/mine.json\n".to_string());
    host.existing.insert("/data/mine.json".to_string());
    let state = AppState::default();
    assert_eq!(
        host.resolve(&state),
        Ok(location("/data/mine.json", ConfigSource::PersistedPointer))
    );
    assert_eq!(
        host.asked,
        vec![
            "read /cfg/imagers/last_config.txt".to_string(),
            "probe /data/mine.json".to_string()
        ]
    );
}

#[test]
fn stale_pointer_falls_back_to_the_default() {
    let mut host = Host::new(Some("/cfg"));
    host.files.insert("/cfg/imagers/last_config.txt".to_string(), "/gone/settings.json".to_string());
    let state = AppState::default();
    assert_eq!(
        host.resolve(&state),
        Ok(location("/cfg/imagers/settings.json", ConfigSource::Default))
    );
}

#[test]
fn empty_pointer_falls_back_to_the_default() {
    let mut host = Host::new(Some("/cfg"));
    host.files.insert("/cfg/imagers/last_config.txt".to_string(), " \n".to_string());
    let state = AppState::default();
    assert_eq!(
        host.resolve(&state),
        Ok(location("/cfg/imagers/settings.json", ConfigSource::Default))
    );
    assert!(host.asked.contains(&"probe ".to_string()));
}

#[test]
fn default_directory_that_cannot_be_created_is_an_io_failure() {
    let mut host = Host::new(Some("/cfg"));
    host.uncreatable.insert("/cfg/imagers".to_string(), "permission denied".to_string());
    let state = AppState::default();
    assert_eq!(
        host.resolve(&state),
        Err(ConfigError::IOFailure("permission denied".to_string()))
    );
    assert_eq!(
        ConfigError::IOFailure("permission denied".to_string()).message(),
        "permission denied"
    );
}

#[test]
fn each_report_gives_the_step_that_follows() {
    let paths = ConfigPaths::under("/cfg");
    assert_eq!(
        pointer_read(paths.clone(), None),
        ResolveStep::CreateDefaultDir { paths: paths.clone() }
    );
    assert_eq!(
        pointer_read(paths.clone(), Some("\t/a b/c.json  ".to_string())),
        ResolveStep::ProbeCandidate { paths: paths.clone(), candidate: "/a b/c.json".to_string() }
    );
    assert_eq!(
        candidate_probed(paths.clone(), "/a".to_string(), true),
        ResolveStep::Resolved(location("/a", ConfigSource::PersistedPointer))
    );
    assert_eq!(
        candidate_probed(paths.clone(), "/a".to_string(), false),
        ResolveStep::CreateDefaultDir { paths: paths.clone() }
    );
    assert_eq!(
        default_dir_created(paths.clone(), Ok(())),
        ResolveStep::Resolved(location("/cfg/imagers/settings.json", ConfigSource::Default))
    );
    assert_eq!(
        default_dir_created(paths, Err("read-only file system".to_string())),
        ResolveStep::Failed(ConfigError::IOFailure("read-only file system".to_string()))
    );
}

#[test]
fn set_override_then_resolve_in_the_same_session() {
    let mut host = Host::new(Some("/cfg"));
    let mut state = AppState::default();
    let write =
        set_custom_config_path_in(&mut state, "/data/s.json".to_string(), host.config_dir.clone())
            .unwrap();
    assert_eq!(
        write,
        PointerWrite {
            dir: "/cfg/imagers".to_string(),
            file: "/cfg/imagers/last_config.txt".to_string(),
            contents: "/data/s.json".to_string(),
        }
    );
    assert_eq!(
        host.resolve(&state),
        Ok(location("/data/s.json", ConfigSource::SessionOverride))
    );
}

#[test]
fn override_survives_a_restart_while_the_file_exists() {
    let mut host = Host::new(Some("/cfg"));
    let mut state = AppState::default();
    let write =
        set_custom_config_path_in(&mut state, "/data/s.json".to_string(), host.config_dir.clone())
            .unwrap();
    host.perform(&write);
    host.existing.insert("/data/s.json".to_string());

    let restarted = AppState::default();
    assert_eq!(
        host.resolve(&restarted),
        Ok(location("/data/s.json", ConfigSource::PersistedPointer))
    );

    host.existing.remove("/data/s.json");
    assert_eq!(
        host.resolve(&restarted),
        Ok(location("/cfg/imagers/settings.json", ConfigSource::Default))
    );
}

#[test]
fn override_with_trailing_space_comes_back_trimmed() {
    let mut host = Host::new(Some("/cfg"));
    let mut state = AppState::default();
    let write =
        set_custom_config_path_in(&mut state, "/a ".to_string(), host.config_dir.clone()).unwrap();
    assert_eq!(write.contents, "/a ");
    host.perform(&write);
    host.existing.insert("/a ".to_string());
    host.existing.insert("/a".to_string());
    assert_eq!(host.resolve(&state), Ok(location("/a ", ConfigSource::SessionOverride)));
    assert_eq!(
        host.resolve(&AppState::default()),
        Ok(location("/a", ConfigSource::PersistedPointer))
    );
}

#[test]
fn override_stays_installed_where_nothing_can_be_recorded() {
    let mut state = AppState::default();
    let result = set_custom_config_path_in(&mut state, "/data/s.json".to_string(), None);
    assert_eq!(result, Err(StoreError::ConfigDirUnavailable));
    assert_eq!(state.custom_config_path, Some("/data/s.json".to_string()));
    assert_eq!(StoreError::ConfigDirUnavailable.message(), "No config dir");
}

#[test]
fn override_stays_installed_where_the_write_fails() {
    let mut host = Host::new(Some("/cfg"));
    let mut state = AppState::default();
    let write =
        set_custom_config_path_in(&mut state, "/data/s.json".to_string(), host.config_dir.clone());
    assert!(write.is_ok());
    let reported = written(Err("disk full".to_string()));
    assert_eq!(reported, Err(StoreError::IOFailure("disk full".to_string())));
    assert_eq!(
        host.resolve(&state),
        Ok(location("/data/s.json", ConfigSource::SessionOverride))
    );
    assert_eq!(
        host.resolve(&AppState::default()),
        Ok(location("/cfg/imagers/settings.json", ConfigSource::Default))
    );
}

#[test]
fn set_override_asks_the_host_for_its_directory() {
    let mut state = AppState::default();
    let result = set_custom_config_path(&mut state, "/data/s.json".to_string());
    assert_eq!(state.custom_config_path, Some("/data/s.json".to_string()));
    match result {
        Ok(write) => {
            assert_eq!(write.contents, "/data/s.json");
            assert!(write.file.ends_with("last_config.txt"));
            assert!(write.file.starts_with(&write.dir));
        }
        Err(error) => assert_eq!(error, StoreError::ConfigDirUnavailable),
    }
}

#[test]
fn back_to_back_overrides_leave_exactly_the_later_one() {
    let mut host = Host::new(Some("/cfg"));
    let mut state = AppState::default();
    let first = set_custom_config_path_in(&mut state, "/a".to_string(), host.config_dir.clone())
        .unwrap();
    host.perform(&first);
    let second = set_custom_config_path_in(&mut state, "/b".to_string(), host.config_dir.clone())
        .unwrap();
    host.perform(&second);
    assert_eq!(state.custom_config_path, Some("/b".to_string()));
    assert_eq!(host.resolve(&state), Ok(location("/b", ConfigSource::SessionOverride)));
    assert_eq!(host.files.get("/cfg/imagers/last_config.txt"), Some(&"/b".to_string()));
}

#[test]
fn back_to_back_overrides_in_the_other_order() {
    let mut state = AppState::default();
    state.install_override("/b".to_string());
    state.install_override("/a".to_string());
    let resolved = get_config_path_in(&state, None);
    assert_eq!(resolved, ResolveStep::Resolved(location("/a", ConfigSource::SessionOverride)));
}

#[test]
fn candidate_is_the_text_without_surrounding_white_space() {
    assert_eq!(candidate_path("/a/b.json"), "/a/b.json");
    assert_eq!(candidate_path("  /a/b.json"), "/a/b.json");
    assert_eq!(candidate_path("/a/b.json\r\n"), "/a/b.json");
    assert_eq!(candidate_path("\t /a b/c d.json \n"), "/a b/c d.json");
    assert_eq!(candidate_path(""), "");
    assert_eq!(candidate_path(" \t\n"), "");
    assert_eq!(candidate_path("x"), "x");
    assert_eq!(candidate_path(" x"), "x");
    assert_eq!(candidate_path("x "), "x");
}

#[test]
fn candidate_counts_white_space_beyond_ascii() {
    assert_eq!(candidate_path("\u{a0}/p\u{2003}"), "/p");
    assert_eq!(candidate_path("\u{3000}\u{e9}t\u{e9}\u{2028}"), "\u{e9}t\u{e9}");
    assert_eq!(candidate_path("\u{200b}/p"), "\u{200b}/p");
}

#[test]
fn candidate_agrees_with_the_standard_trim() {
    let samples = ["", " ", "a", " a", "a ", " a b ", "\n\n/x/y\n", "\u{85}z\u{1680}", "é ", "  日本  "];
    for sample in samples {
        assert_eq!(candidate_path(sample), sample.trim());
    }
}

#[test]
fn cut_drops_the_flagged_ends_only() {
    assert_eq!(cut_text("  ab ", &vec![true, true, false, false, true]), "ab");
    assert_eq!(cut_text("a b c", &vec![false, true, false, true, false]), "a b c");
    assert_eq!(cut_text(" a b ", &vec![true, false, true, false, true]), "a b");
    assert_eq!(cut_text("abc", &vec![true, true, true]), "");
    assert_eq!(cut_text("", &vec![]), "");
    assert_eq!(cut_text("abc", &vec![false, false, false]), "abc");
}

#[test]
fn cut_takes_a_missing_flag_as_not_set_and_drops_a_spare_one() {
    assert_eq!(cut_text("abc", &vec![true]), "bc");
    assert_eq!(cut_text("abc", &vec![]), "abc");
    assert_eq!(cut_text("ab", &vec![true, false, true, true]), "b");
    assert_eq!(cut_text("ab", &vec![true, true, false]), "");
}

//! Loading and saving the settings document, and choosing where it lives.
//!
//! The shell resolves the location, touches the file and turns text into a
//! document and back. What a load yields for each thing the shell can find, and
//! what has to be written when the user picks another location, is decided here.

use vstd::prelude::*;
use vstd::string::*;
use crate::error::{failure, StoreError, StoreFault};
use crate::host::host_config_dir;
use crate::pointer::{lemma_trimmed_keeps_solid_text, solid_at_both_ends};
use crate::resolver::{
    found, paths_under, resolution, AppState, ConfigPaths, ConfigSource, HostModel,
};
use crate::settings::{empty_settings, Settings, SettingsView};

verus! {

/// The mathematical value of a result whose two sides have one.
pub open spec fn result_view<T: View, E: View>(result: Result<T, E>) -> Result<T::V, E::V> {
    match result {
        Ok(value) => Ok(value@),
        Err(error) => Err(error@),
    }
}

/// What the shell found at the resolved location.
#[derive(Debug, Clone, PartialEq, Eq)]
pub enum SettingsFile {
    /// Nothing exists there.
    Missing,
    /// Something exists there and could not be read; the text is the host's reason.
    Unreadable(String),
    /// The file was read and does not hold a settings document; the text says why.
    Malformed(String),
    /// The file holds this document.
    Document(Settings),
}

/// The mathematical value of a `SettingsFile`.
pub enum FileView {
    Missing,
    Unreadable(Seq<char>),
    Malformed(Seq<char>),
    Document(SettingsView),
}

impl View for SettingsFile {
    type V = FileView;

    open spec fn view(&self) -> FileView {
        match self {
            SettingsFile::Missing => FileView::Missing,
            SettingsFile::Unreadable(reason) => FileView::Unreadable(reason@),
            SettingsFile::Malformed(reason) => FileView::Malformed(reason@),
            SettingsFile::Document(settings) => FileView::Document(settings@),
        }
    }
}

/// What a load yields: the empty settings where there is no file, the document
/// as it was decoded where there is one, and an error where the file could not
/// be read or does not hold a document.
pub open spec fn loaded(file: FileView) -> Result<SettingsView, StoreFault> {
    match file {
        FileView::Missing => Ok(empty_settings()),
        FileView::Unreadable(reason) => Err(StoreFault::IOFailure(reason)),
        FileView::Malformed(reason) => Err(StoreFault::DecodeFailure(reason)),
        FileView::Document(settings) => Ok(settings),
    }
}

/// Decides what a load returns for what the shell found at the resolved location.
pub fn load_settings(file: SettingsFile) -> (result: Result<Settings, StoreError>)
    ensures
        result_view(result) == loaded(file@),
{
    match file {
        SettingsFile::Missing => Ok(Settings::empty()),
        SettingsFile::Unreadable(reason) => Err(StoreError::IOFailure(reason)),
        SettingsFile::Malformed(reason) => Err(StoreError::DecodeFailure(reason)),
        SettingsFile::Document(settings) => Ok(settings),
    }
}

/// Loading from a location that holds no file gives the empty settings, not an
/// error.
pub proof fn lemma_missing_file_loads_empty()
    ensures
        loaded(FileView::Missing) == Ok::<SettingsView, StoreFault>(empty_settings()),
{
}

/// A document that was decoded is what the load returns, with nothing added,
/// dropped or reordered.
pub proof fn lemma_document_loads_unchanged(settings: SettingsView)
    ensures
        loaded(FileView::Document(settings)) == Ok::<SettingsView, StoreFault>(settings),
{
}

/// What a write that the shell attempted comes to: success, or an I/O failure
/// with the host's reason.
pub open spec fn write_result(failed: Option<Seq<char>>) -> Result<(), StoreFault> {
    match failed {
        None => Ok(()),
        Some(reason) => Err(StoreFault::IOFailure(reason)),
    }
}

/// Takes the shell's report on a write, of the settings file or of the pointer
/// file: `Ok` where the file now holds what was to be written, else the host's
/// reason.
pub fn written(outcome: Result<(), String>) -> (result: Result<(), StoreError>)
    ensures
        result_view(result) == write_result(failure(outcome)),
{
    match outcome {
        Ok(_) => Ok(()),
        Err(reason) => Err(StoreError::IOFailure(reason)),
    }
}

/// What the shell has to do to make an override outlive the process: see to it
/// that `dir` exists, then replace the whole of `file` by `contents`.
#[derive(Debug, Clone, PartialEq, Eq)]
pub struct PointerWrite {
    pub dir: String,
    pub file: String,
    pub contents: String,
}

/// The mathematical value of a `PointerWrite`.
pub struct WriteView {
    pub dir: Seq<char>,
    pub file: Seq<char>,
    pub contents: Seq<char>,
}

impl View for PointerWrite {
    type V = WriteView;

    open spec fn view(&self) -> WriteView {
        WriteView { dir: self.dir@, file: self.file@, contents: self.contents@ }
    }
}

/// The session's choice after `path` was installed as its override: `path`,
/// whatever was chosen before.
pub open spec fn overridden(chosen: Option<Seq<char>>, path: Seq<char>) -> Option<Seq<char>> {
    Some(path)
}

/// The write that records `path` under the host's configuration directory: the
/// pointer file gets exactly `path`. Without such a directory nothing can be
/// recorded.
pub open spec fn pointer_write(path: Seq<char>, config_dir: Option<Seq<char>>) -> Result<
    WriteView,
    StoreFault,
> {
    match config_dir {
        Some(config_dir) => Ok(
            WriteView {
                dir: paths_under(config_dir).dir,
                file: paths_under(config_dir).pointer,
                contents: path,
            },
        ),
        None => Err(StoreFault::ConfigDirUnavailable),
    }
}

/// Installs `path` as the session's override and says what has to be written so
/// that later sessions find it, given the host's configuration directory. The
/// override is installed first and stays installed where nothing can be written.
pub fn set_custom_config_path_in(
    state: &mut AppState,
    path: String,
    config_dir: Option<String>,
) -> (result: Result<PointerWrite, StoreError>)
    ensures
        final(state)@ == overridden(old(state)@, path@),
        result_view(result) == pointer_write(path@, config_dir.deep_view()),
{
    state.install_override(path.clone());
    match config_dir {
        Some(config_dir) => {
            let paths = ConfigPaths::under(config_dir.as_str());
            Ok(PointerWrite { dir: paths.dir, file: paths.pointer, contents: path })
        },
        None => Err(StoreError::ConfigDirUnavailable),
    }
}

/// Installs `path` as the session's override and says what has to be written so
/// that later sessions find it. The host is asked for its configuration
/// directory; whatever it answers, the override is installed and the result is
/// the one that `pointer_write` gives for that answer.
pub fn set_custom_config_path(
    state: &mut AppState,
    path: String,
) -> (result: Result<PointerWrite, StoreError>)
    ensures
        final(state)@ == overridden(old(state)@, path@),
        exists|config_dir: Option<Seq<char>>|
            result_view(result) == pointer_write(path@, config_dir),
{
    let config_dir = host_config_dir();
    let ghost seen = config_dir.deep_view();
    let result = set_custom_config_path_in(state, path, config_dir);
    assert(result_view(result) == pointer_write(path@, seen));
    result
}

/// The host after the shell has carried out `write`: the directory and the file
/// exist, and the file holds the contents.
pub open spec fn performed(host: HostModel, write: WriteView) -> HostModel {
    HostModel {
        config_dir: host.config_dir,
        files: host.files.insert(write.file, write.contents),
        existing: host.existing.insert(write.dir).insert(write.file),
        uncreatable: host.uncreatable,
    }
}

/// After an override was installed, resolution in the same session gives its
/// path, whatever the host holds and whether or not the path was recorded.
pub proof fn lemma_override_resolves_in_session(
    chosen: Option<Seq<char>>,
    path: Seq<char>,
    host: HostModel,
)
    ensures
        resolution(overridden(chosen, path), host) == found(path, ConfigSource::SessionOverride),
{
}

/// An override that was recorded survives a restart: once the shell has carried
/// out the write, a session without an override resolves to the same path, as
/// long as that path exists. This holds of a path without white space at either
/// end, on a host that names a configuration directory; the pointer file is read
/// back trimmed, so a path that begins or ends with white space comes back
/// shorter.
pub proof fn lemma_override_survives_restart(path: Seq<char>, host: HostModel)
    requires
        host.config_dir is Some,
        host.existing.contains(path),
        solid_at_both_ends(path),
    ensures
        pointer_write(path, host.config_dir) is Ok,
        resolution(None, performed(host, pointer_write(path, host.config_dir)->Ok_0))
            == found(path, ConfigSource::PersistedPointer),
{
    lemma_trimmed_keeps_solid_text(path);
}

/// Of two overrides installed one after the other, the later one stands whole:
/// the session's choice is exactly its path, and resolution gives exactly that.
pub proof fn lemma_last_override_stands(
    chosen: Option<Seq<char>>,
    first: Seq<char>,
    second: Seq<char>,
    host: HostModel,
)
    ensures
        overridden(overridden(chosen, first), second) == Some(second),
        resolution(overridden(overridden(chosen, first), second), host) == found(
            second,
            ConfigSource::SessionOverride,
        ),
{
}

} // verus!

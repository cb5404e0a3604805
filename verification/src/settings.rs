//! The settings document.

use vstd::prelude::*;

verus! {

/// One keyboard shortcut: three texts that this library carries and never reads.
#[derive(Debug, Clone, PartialEq, Eq)]
pub struct Shortcut {
    pub key: String,
    pub folder: String,
    pub action: String,
}

/// The mathematical value of a `Shortcut`.
pub struct ShortcutView {
    pub key: Seq<char>,
    pub folder: Seq<char>,
    pub action: Seq<char>,
}

impl View for Shortcut {
    type V = ShortcutView;

    open spec fn view(&self) -> ShortcutView {
        ShortcutView { key: self.key@, folder: self.folder@, action: self.action@ }
    }
}

/// The user's settings: the shortcuts in their order, and the output path if one
/// was chosen.
#[derive(Debug, Clone, PartialEq, Eq)]
pub struct Settings {
    pub shortcuts: Vec<Shortcut>,
    pub output_path: Option<String>,
}

/// The mathematical value of a `Settings`.
pub struct SettingsView {
    pub shortcuts: Seq<ShortcutView>,
    pub output_path: Option<Seq<char>>,
}

impl View for Settings {
    type V = SettingsView;

    open spec fn view(&self) -> SettingsView {
        SettingsView {
            shortcuts: self.shortcuts@.map_values(|shortcut: Shortcut| shortcut@),
            output_path: self.output_path.deep_view(),
        }
    }
}

/// The settings of a first run: no shortcut and no output path.
pub open spec fn empty_settings() -> SettingsView {
    SettingsView { shortcuts: Seq::empty(), output_path: None }
}

impl Settings {
    /// The settings that stand for a settings file that does not exist.
    pub fn empty() -> (settings: Settings)
        ensures
            settings@ == empty_settings(),
    {
        let settings = Settings { shortcuts: Vec::new(), output_path: None };
        assert(settings@.shortcuts =~= Seq::empty());
        settings
    }
}

impl Default for Settings {
    fn default() -> (settings: Settings)
        ensures
            settings@ == empty_settings(),
    {
        Settings::empty()
    }
}

} // verus!

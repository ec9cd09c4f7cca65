use vstd::prelude::*;

use crate::platform::{config_dir_of, get_config_dir, join, join_path, PlatformEnv};
use crate::types::BrowserSettings;

verus! {

/// Browser settings and the file they are kept in. Reading and writing the file is
/// left to the caller.
pub struct SettingsEngine {
    config_path: String,
    settings: BrowserSettings,
}

impl SettingsEngine {
    /// An engine with default settings, kept at `path_override` or else at
    /// `settings.json` in the platform's configuration directory.
    pub fn new(path_override: Option<String>, env: &PlatformEnv) -> (r: Self)
        ensures
            r.config_path_view() == match path_override {
                Some(p) => p@,
                None => join_path(config_dir_of(*env), "settings.json"@, crate::platform::separator(env.platform)),
            },
    {
        let config_path = match path_override {
            Some(p) => p,
            None => {
                let sep = match env.platform {
                    crate::platform::Platform::Windows => '\\',
                    _ => '/',
                };
                join(get_config_dir(env), "settings.json", sep)
            },
        };
        SettingsEngine { config_path, settings: BrowserSettings::default() }
    }

    pub closed spec fn config_path_view(&self) -> Seq<char> {
        self.config_path@
    }

    pub fn get_config_path(&self) -> (r: &str)
        ensures
            r@ == self.config_path_view(),
    {
        self.config_path.as_str()
    }

    pub fn get_settings(&self) -> (r: &BrowserSettings) {
        &self.settings
    }

    pub fn set_settings(&mut self, settings: BrowserSettings)
        ensures
            final(self).config_path_view() == old(self).config_path_view(),
    {
        self.settings = settings;
    }
}

} // verus!

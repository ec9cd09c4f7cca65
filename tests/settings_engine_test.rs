use gitbrowser::platform::{Platform, PlatformEnv};
use gitbrowser::settings::SettingsEngine;
use gitbrowser::types::{BrowserSettings, StartupBehavior, ThemeMode};

fn linux_env() -> PlatformEnv {
    PlatformEnv {
        platform: Platform::Linux,
        home: Some("/home/alice".to_string()),
        xdg_config_home: None,
        xdg_data_home: None,
        xdg_cache_home: None,
        appdata: None,
        local_appdata: None,
    }
}

#[test]
fn test_get_config_path() {
    let path = "/tmp/test_settings.json".to_string();
    let engine = SettingsEngine::new(Some(path.clone()), &linux_env());
    assert_eq!(engine.get_config_path(), path);
}

#[test]
fn test_default_config_path_uses_platform() {
    let engine = SettingsEngine::new(None, &linux_env());
    let path = engine.get_config_path();
    assert!(path.contains("settings.json"));
    assert!(path.to_lowercase().contains("gitbrowser"));
    assert_eq!(path, "/home/alice/.config/gitbrowser/settings.json");
}

#[test]
fn test_default_settings_values() {
    let defaults = BrowserSettings::default();

    // General
    assert_eq!(defaults.general.language, "en");
    assert_eq!(defaults.general.startup_behavior, StartupBehavior::Restore);
    assert_eq!(defaults.general.homepage, "about:newtab");
    assert_eq!(defaults.general.default_search_engine, "google");

    // Privacy
    assert!(defaults.privacy.tracker_blocking);
    assert!(defaults.privacy.ad_blocking);
    assert!(defaults.privacy.https_enforcement);
    assert!(defaults.privacy.dns_over_https);
    assert_eq!(defaults.privacy.dns_provider, "https://cloudflare-dns.com/dns-query");
    assert!(defaults.privacy.anti_fingerprinting);
    assert!(!defaults.privacy.clear_data_on_exit);

    // Appearance
    assert_eq!(defaults.appearance.theme, ThemeMode::System);
    assert_eq!(defaults.appearance.accent_color, "#2ea44f");
    assert_eq!(defaults.appearance.font_size, 14);

    // Shortcuts
    let shortcut = |action: &str| {
        defaults.shortcuts.iter().find(|(a, _)| a == action).map(|(_, k)| k.clone())
    };
    assert_eq!(shortcut("new_tab"), Some("Ctrl+T".to_string()));
    assert_eq!(shortcut("close_tab"), Some("Ctrl+W".to_string()));
    assert_eq!(defaults.shortcuts.len(), 13);

    // Performance
    assert_eq!(defaults.performance.tab_suspend_timeout_minutes, 30);
    assert!(defaults.performance.lazy_load_images);
}

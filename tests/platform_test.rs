use gitbrowser::platform::{get_cache_dir, get_config_dir, get_data_dir, Platform, PlatformEnv};

fn env_for(platform: Platform) -> PlatformEnv {
    PlatformEnv {
        platform,
        home: Some("/home/alice".to_string()),
        xdg_config_home: None,
        xdg_data_home: None,
        xdg_cache_home: None,
        appdata: Some("C:\\Users\\alice\\AppData\\Roaming".to_string()),
        local_appdata: Some("C:\\Users\\alice\\AppData\\Local".to_string()),
    }
}

#[test]
fn macos_test_data_dir_same_as_config() {
    let env = env_for(Platform::MacOs);
    assert_eq!(get_config_dir(&env), get_data_dir(&env));
}

#[test]
fn macos_test_cache_dir_differs_from_config() {
    let env = env_for(Platform::MacOs);
    assert_ne!(get_config_dir(&env), get_cache_dir(&env));
}

#[test]
fn test_config_dir_returns_path() {
    let config_dir = get_config_dir(&env_for(Platform::Linux));
    assert!(!config_dir.is_empty());
    let path_str = config_dir.to_lowercase();
    assert!(path_str.contains("gitbrowser"), "Config dir should contain 'gitbrowser': {}", path_str);
}

#[test]
fn test_data_dir_returns_path() {
    let data_dir = get_data_dir(&env_for(Platform::Linux));
    assert!(!data_dir.is_empty());
    let path_str = data_dir.to_lowercase();
    assert!(path_str.contains("gitbrowser"), "Data dir should contain 'gitbrowser': {}", path_str);
}

#[test]
fn test_cache_dir_returns_path() {
    let cache_dir = get_cache_dir(&env_for(Platform::Linux));
    assert!(!cache_dir.is_empty());
    let path_str = cache_dir.to_lowercase();
    assert!(path_str.contains("gitbrowser"), "Cache dir should contain 'gitbrowser': {}", path_str);
}

#[test]
fn test_config_and_data_dirs_are_distinct_on_linux() {
    let env = env_for(Platform::Linux);
    assert_ne!(get_config_dir(&env), get_data_dir(&env), "On Linux, config and data dirs should differ");
}

#[test]
fn mod_test_cache_dir_differs_from_config() {
    let env = env_for(Platform::Linux);
    assert_ne!(get_config_dir(&env), get_cache_dir(&env), "Cache dir should differ from config dir");
}

#[test]
fn windows_test_data_dir_same_as_config() {
    let env = env_for(Platform::Windows);
    assert_eq!(get_config_dir(&env), get_data_dir(&env));
}

#[test]
fn test_cache_dir_with_localappdata() {
    let cache_dir = get_cache_dir(&env_for(Platform::Windows));
    // Cache dir should end with "GitBrowser\cache"
    let parts: Vec<&str> = cache_dir.split('\\').collect();
    assert_eq!(parts[parts.len() - 1], "cache");
    assert_eq!(parts[parts.len() - 2], "GitBrowser");
}

#[test]
fn windows_test_cache_dir_differs_from_config() {
    let env = env_for(Platform::Windows);
    assert_ne!(get_config_dir(&env), get_cache_dir(&env));
}

#[test]
fn test_linux_paths_exact() {
    let env = env_for(Platform::Linux);
    assert_eq!(get_config_dir(&env), "/home/alice/.config/gitbrowser");
    assert_eq!(get_data_dir(&env), "/home/alice/.local/share/gitbrowser");
    assert_eq!(get_cache_dir(&env), "/home/alice/.cache/gitbrowser");
}

#[test]
fn test_linux_xdg_overrides_and_home_fallback() {
    let mut env = env_for(Platform::Linux);
    env.xdg_config_home = Some("/xdg/conf/".to_string());
    env.home = None;
    assert_eq!(get_config_dir(&env), "/xdg/conf/gitbrowser");
    assert_eq!(get_cache_dir(&env), "/tmp/.cache/gitbrowser");
}

#[test]
fn test_macos_and_windows_paths_exact() {
    assert_eq!(
        get_config_dir(&env_for(Platform::MacOs)),
        "/home/alice/Library/Application Support/GitBrowser"
    );
    assert_eq!(get_cache_dir(&env_for(Platform::MacOs)), "/home/alice/Library/Caches/GitBrowser");
    assert_eq!(
        get_config_dir(&env_for(Platform::Windows)),
        "C:\\Users\\alice\\AppData\\Roaming\\GitBrowser"
    );
}

//! Plain data records of the browser shell: bookmarks, downloads, history, permissions,
//! extensions, GitHub data, reader content, window state, updates and settings.

use vstd::prelude::*;

use crate::providers::AIProviderName;

verus! {

#[derive(Debug, Clone)]
pub struct AIProvider {
    pub name: AIProviderName,
    pub model: String,
    pub api_endpoint: String,
    pub max_tokens: u32,
}

#[derive(Debug, Clone)]
pub struct AIContext {
    pub selected_text: Option<String>,
    pub page_content: Option<String>,
    pub page_url: Option<String>,
}

#[derive(Debug, Clone, PartialEq, Eq)]
pub enum ChatRole {
    User,
    Assistant,
    System,
}

#[derive(Debug, Clone)]
pub struct AIProviderConfig {
    pub name: AIProviderName,
    pub display_name: String,
    pub api_endpoint: String,
    pub models: Vec<String>,
    pub supports_streaming: bool,
}

#[derive(Debug, Clone)]
pub struct Bookmark {
    pub id: String,
    pub url: String,
    pub title: String,
    pub folder_id: Option<String>,
    pub position: i32,
    pub created_at: i64,
    pub updated_at: i64,
}

#[derive(Debug, Clone)]
pub struct BookmarkFolder {
    pub id: String,
    pub name: String,
    pub parent_id: Option<String>,
    pub position: i32,
}

#[derive(Debug, Clone)]
pub enum DownloadStatus {
    Pending,
    InProgress,
    Paused,
    Completed,
    Failed(String),
}

#[derive(Debug, Clone)]
pub struct DownloadItem {
    pub id: String,
    pub url: String,
    pub filename: String,
    pub filepath: String,
    pub size: Option<u64>,
    pub downloaded: u64,
    pub status: DownloadStatus,
    pub mime_type: Option<String>,
    pub started_at: i64,
    pub completed_at: Option<i64>,
}

#[derive(Debug, Clone)]
pub struct HistoryEntry {
    pub id: String,
    pub url: String,
    pub title: String,
    pub visit_time: i64,
    pub visit_count: i32,
}

#[derive(Debug, Clone, PartialEq, Eq)]
pub enum PermissionType {
    Camera,
    Microphone,
    Geolocation,
    Notifications,
    Clipboard,
}

#[derive(Debug, Clone, PartialEq, Eq)]
pub enum PermissionValue {
    Allow,
    Deny,
    Ask,
}

#[derive(Debug, Clone)]
pub struct SitePermission {
    pub origin: String,
    pub permission_type: PermissionType,
    pub value: PermissionValue,
    pub updated_at: i64,
}

#[derive(Debug, Clone, Copy, Default)]
pub struct PrivacyStats {
    pub trackers_blocked: u64,
    pub ads_blocked: u64,
    pub https_upgrades: u64,
    pub fingerprint_attempts_blocked: u64,
}

#[derive(Debug, Clone)]
pub struct CrashLogEntry {
    pub id: String,
    pub tab_url: Option<String>,
    pub error_type: String,
    pub error_message: Option<String>,
    pub timestamp: i64,
}

#[derive(Debug, Clone)]
pub struct PluralRules {
    pub zero: Option<String>,
    pub one: String,
    /// For Russian: 2-4 form.
    pub few: Option<String>,
    /// For Russian: 5-20 form.
    pub many: Option<String>,
    pub other: String,
}

#[derive(Debug, Clone)]
pub struct ExtensionManifest {
    pub id: String,
    pub name: String,
    pub version: String,
    pub description: String,
    pub author: String,
    pub homepage_url: String,
    pub permissions: Vec<ExtensionPermission>,
    /// Path to the background script (relative to extension root).
    pub background: Option<String>,
    /// Content scripts to inject into matching pages.
    pub content_scripts: Vec<ContentScript>,
    /// Toolbar button configuration.
    pub toolbar_button: Option<ToolbarButton>,
    /// Minimum GitBrowser version required.
    pub min_browser_version: String,
}

#[derive(Debug, Clone, PartialEq, Eq)]
pub enum ExtensionPermission {
    /// Access to page content via content scripts.
    PageContent,
    /// Local key-value storage for the extension.
    Storage,
    /// Ability to add a toolbar button.
    Toolbar,
    /// Access to tab management APIs.
    Tabs,
    /// Ability to make network requests.
    Network,
    /// Access to bookmark APIs.
    Bookmarks,
    /// Ability to show notifications.
    Notifications,
}

#[derive(Debug, Clone)]
pub struct ContentScript {
    /// URL match patterns (glob-style). E.g. `["*://*.github.com/*"]`
    pub matches: Vec<String>,
    /// JavaScript files to inject (relative to extension root).
    pub js: Vec<String>,
    /// CSS files to inject (relative to extension root).
    pub css: Vec<String>,
    /// When to inject: "document_start", "document_end", or "document_idle" (default).
    pub run_at: String,
}


#[derive(Debug, Clone)]
pub struct ToolbarButton {
    pub icon: String,
    pub title: String,
    pub popup: Option<String>,
}

#[derive(Debug, Clone)]
pub struct ExtensionInfo {
    pub id: String,
    pub name: String,
    pub version: String,
    pub enabled: bool,
    pub permissions: Vec<ExtensionPermission>,
    pub performance_impact_ms: u64,
    /// Path where the extension is installed on disk.
    pub install_path: String,
    /// Parsed content scripts from the manifest.
    pub content_scripts: Vec<ContentScript>,
}

#[derive(Debug, Clone)]
pub struct OAuthDeviceCode {
    pub device_code: String,
    pub user_code: String,
    pub verification_uri: String,
    pub expires_in: u32,
    pub interval: u32,
}

#[derive(Debug, Clone)]
pub struct GitHubProfile {
    pub login: String,
    pub name: Option<String>,
    pub avatar_url: String,
    pub html_url: String,
}

#[derive(Debug, Clone)]
pub struct GitHubNotification {
    pub id: String,
    pub title: String,
    pub repo_full_name: String,
    pub notification_type: String,
    pub unread: bool,
    pub updated_at: String,
    pub url: String,
}

#[derive(Debug, Clone)]
pub struct GitHubRepo {
    pub full_name: String,
    pub description: Option<String>,
    pub html_url: String,
    pub stargazers_count: u32,
    pub language: Option<String>,
    pub updated_at: String,
}

#[derive(Debug, Clone)]
pub struct GitHubPullRequest {
    pub id: u64,
    pub title: String,
    pub repo_full_name: String,
    pub state: String,
    pub html_url: String,
    pub created_at: String,
    pub user_login: String,
}

#[derive(Debug, Clone)]
pub struct ReaderContent {
    pub title: String,
    /// Cleaned HTML content.
    pub content: String,
    /// Plain text content.
    pub text_content: String,
    pub author: Option<String>,
    pub publish_date: Option<String>,
    pub site_name: Option<String>,
    pub estimated_read_time_minutes: u32,
}

#[derive(Debug, Clone, PartialEq, Eq)]
pub enum FontFamily {
    Serif,
    SansSerif,
    Monospace,
}

#[derive(Debug, Clone, PartialEq, Eq)]
pub struct WindowBounds {
    pub x: i32,
    pub y: i32,
    pub width: i32,
    pub height: i32,
}

#[derive(Debug, Clone)]
pub struct UpdateInfo {
    pub version: String,
    pub changelog: String,
    pub download_url: String,
    pub sha256: String,
    pub published_at: String,
    pub file_size: u64,
}

#[derive(Debug, Clone)]
pub struct DownloadProgress {
    pub downloaded: u64,
    pub total: u64,
}

/// Top-level browser settings container.
#[derive(Debug, Clone, PartialEq)]
pub struct BrowserSettings {
    pub general: GeneralSettings,
    pub privacy: PrivacySettings,
    pub appearance: AppearanceSettings,
    /// Pairs of action name and key binding.
    pub shortcuts: Vec<(String, String)>,
    pub ai: AISettings,
    pub performance: PerformanceSettings,
}

/// The default key binding of each action, as (action, keys) pairs.
pub open spec fn default_shortcut_pairs() -> Seq<(Seq<char>, Seq<char>)> {
    seq![
        ("new_tab"@, "Ctrl+T"@),
        ("close_tab"@, "Ctrl+W"@),
        ("reload"@, "Ctrl+R"@),
        ("back"@, "Alt+Left"@),
        ("forward"@, "Alt+Right"@),
        ("address_bar"@, "Ctrl+L"@),
        ("find"@, "Ctrl+F"@),
        ("bookmarks"@, "Ctrl+B"@),
        ("history"@, "Ctrl+H"@),
        ("downloads"@, "Ctrl+J"@),
        ("settings"@, "Ctrl+Comma"@),
        ("private_mode"@, "Ctrl+Shift+N"@),
        ("ai_assistant"@, "Ctrl+Shift+A"@),
    ]
}

pub open spec fn pair_views(v: Seq<(String, String)>) -> Seq<(Seq<char>, Seq<char>)> {
    v.map_values(|p: (String, String)| (p.0@, p.1@))
}

fn binding(action: &str, keys: &str) -> (r: (String, String))
    ensures
        r.0@ == action@,
        r.1@ == keys@,
{
    (action.to_owned(), keys.to_owned())
}

impl BrowserSettings {
    /// Returns the default keyboard shortcuts.
    pub fn default_shortcuts() -> (r: Vec<(String, String)>)
        ensures
            pair_views(r@) == default_shortcut_pairs(),
    {
        let mut v: Vec<(String, String)> = Vec::new();
        v.push(binding("new_tab", "Ctrl+T"));
        v.push(binding("close_tab", "Ctrl+W"));
        v.push(binding("reload", "Ctrl+R"));
        v.push(binding("back", "Alt+Left"));
        v.push(binding("forward", "Alt+Right"));
        v.push(binding("address_bar", "Ctrl+L"));
        v.push(binding("find", "Ctrl+F"));
        v.push(binding("bookmarks", "Ctrl+B"));
        v.push(binding("history", "Ctrl+H"));
        v.push(binding("downloads", "Ctrl+J"));
        v.push(binding("settings", "Ctrl+Comma"));
        v.push(binding("private_mode", "Ctrl+Shift+N"));
        v.push(binding("ai_assistant", "Ctrl+Shift+A"));
        assert(pair_views(v@) =~= default_shortcut_pairs());
        v
    }
}

impl Default for BrowserSettings {
    fn default() -> (r: Self)
        ensures
            pair_views(r.shortcuts@) == default_shortcut_pairs(),
            r.general.startup_behavior == StartupBehavior::Restore,
            r.appearance.theme == ThemeMode::System,
            r.appearance.font_size == 14,
            r.performance.tab_suspend_timeout_minutes == 30,
    {
        BrowserSettings {
            general: GeneralSettings::default(),
            privacy: PrivacySettings::default(),
            appearance: AppearanceSettings::default(),
            shortcuts: Self::default_shortcuts(),
            ai: AISettings::default(),
            performance: PerformanceSettings::default(),
        }
    }
}

/// General browser settings.
#[derive(Debug, Clone, PartialEq)]
pub struct GeneralSettings {
    pub language: String,
    pub startup_behavior: StartupBehavior,
    pub homepage: String,
    pub default_search_engine: String,
}

impl Default for GeneralSettings {
    fn default() -> (r: Self)
        ensures
            r.language@ == "en"@,
            r.startup_behavior == StartupBehavior::Restore,
            r.homepage@ == "about:newtab"@,
            r.default_search_engine@ == "google"@,
    {
        GeneralSettings {
            language: "en".to_owned(),
            startup_behavior: StartupBehavior::Restore,
            homepage: "about:newtab".to_owned(),
            default_search_engine: "google".to_owned(),
        }
    }
}

/// What the browser does on startup.
#[derive(Debug, Clone, Copy, PartialEq, Eq, Structural)]
pub enum StartupBehavior {
    Restore,
    NewTab,
    Homepage,
}

/// Privacy-related settings.
#[derive(Debug, Clone, PartialEq)]
pub struct PrivacySettings {
    pub tracker_blocking: bool,
    pub ad_blocking: bool,
    pub https_enforcement: bool,
    pub dns_over_https: bool,
    pub dns_provider: String,
    pub anti_fingerprinting: bool,
    pub clear_data_on_exit: bool,
    pub telemetry_consent: bool,
}

impl Default for PrivacySettings {
    fn default() -> (r: Self)
        ensures
            r.tracker_blocking && r.ad_blocking && r.https_enforcement && r.dns_over_https,
            r.dns_provider@ == "https://cloudflare-dns.com/dns-query"@,
            r.anti_fingerprinting,
            !r.clear_data_on_exit && !r.telemetry_consent,
    {
        PrivacySettings {
            tracker_blocking: true,
            ad_blocking: true,
            https_enforcement: true,
            dns_over_https: true,
            dns_provider: "https://cloudflare-dns.com/dns-query".to_owned(),
            anti_fingerprinting: true,
            clear_data_on_exit: false,
            telemetry_consent: false,
        }
    }
}

/// Appearance and visual settings.
#[derive(Debug, Clone, PartialEq)]
pub struct AppearanceSettings {
    pub theme: ThemeMode,
    pub accent_color: String,
    pub font_size: u32,
    pub show_telegram: bool,
    pub show_github: bool,
}

/// The value of a boolean setting that was never written.
pub fn default_true() -> (r: bool)
    ensures
        r,
{
    true
}

impl Default for AppearanceSettings {
    fn default() -> (r: Self)
        ensures
            r.theme == ThemeMode::System,
            r.accent_color@ == "#2ea44f"@,
            r.font_size == 14,
            r.show_telegram && r.show_github,
    {
        AppearanceSettings {
            theme: ThemeMode::System,
            accent_color: "#2ea44f".to_owned(),
            font_size: 14,
            show_telegram: default_true(),
            show_github: default_true(),
        }
    }
}

/// Theme mode selection.
#[derive(Debug, Clone, Copy, PartialEq, Eq, Structural)]
pub enum ThemeMode {
    Dark,
    Light,
    System,
}

/// AI assistant settings.
#[derive(Debug, Clone, PartialEq)]
pub struct AISettings {
    pub active_provider: Option<AIProviderName>,
    pub active_model: Option<String>,
}

impl Default for AISettings {
    fn default() -> (r: Self)
        ensures
            r.active_provider is None,
            r.active_model is None,
    {
        AISettings { active_provider: None, active_model: None }
    }
}

/// Performance tuning settings.
#[derive(Debug, Clone, PartialEq)]
pub struct PerformanceSettings {
    pub tab_suspend_timeout_minutes: u32,
    pub lazy_load_images: bool,
}

impl Default for PerformanceSettings {
    fn default() -> (r: Self)
        ensures
            r.tab_suspend_timeout_minutes == 30,
            r.lazy_load_images,
    {
        PerformanceSettings { tab_suspend_timeout_minutes: 30, lazy_load_images: true }
    }
}

/// When a content script runs if its manifest does not say.
pub fn default_run_at() -> (r: String)
    ensures
        r@ == "document_idle"@,
{
    "document_idle".to_owned()
}

} // verus!

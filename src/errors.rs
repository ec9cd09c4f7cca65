use vstd::prelude::*;

verus! {

/// Errors of the cryptographic layer and of the secret stores built on it.
#[derive(Debug)]
pub enum CryptoError {
    /// Failed to derive an encryption key from a password.
    KeyDerivation(String),
    /// An encryption operation failed.
    Encryption(String),
    /// Authentication or decryption failed: wrong key, altered data or malformed blob.
    Decryption(String),
    /// The system random number generator failed.
    RandomGeneration(String),
    /// A key of the wrong length was supplied.
    InvalidKey(String),
    /// A credential operation was attempted while the vault is locked.
    VaultLocked,
    /// A secret encrypted under the master key was read while the vault is locked.
    MasterRequired,
    /// No record carries the requested identifier.
    NotFound(String),
    /// A record with this identifier already exists.
    AlreadyExists(String),
}

/// `prefix` followed by `detail`.
pub open spec fn prefixed(prefix: Seq<char>, detail: Seq<char>) -> Seq<char> {
    prefix + detail
}

fn join(prefix: &str, detail: &str) -> (r: String)
    ensures
        r@ == prefixed(prefix@, detail@),
{
    let mut s = prefix.to_owned();
    s.append(detail);
    s
}

impl CryptoError {
    /// The human-readable description of this error.
    pub open spec fn spec_message(&self) -> Seq<char> {
        match self {
            CryptoError::KeyDerivation(m) => prefixed("Key derivation failed: "@, m@),
            CryptoError::Encryption(m) => prefixed("Encryption failed: "@, m@),
            CryptoError::Decryption(m) => prefixed("Decryption failed: "@, m@),
            CryptoError::RandomGeneration(m) => prefixed("Random generation failed: "@, m@),
            CryptoError::InvalidKey(m) => prefixed("Invalid key: "@, m@),
            CryptoError::VaultLocked => "Password manager is locked"@,
            CryptoError::MasterRequired => "Master password required to decrypt this secret"@,
            CryptoError::NotFound(m) => prefixed("Not found: "@, m@),
            CryptoError::AlreadyExists(m) => prefixed("Already exists: "@, m@),
        }
    }

    /// The human-readable description of this error.
    pub fn message(&self) -> (r: String)
        ensures
            r@ == self.spec_message(),
    {
        match self {
            CryptoError::KeyDerivation(m) => join("Key derivation failed: ", m.as_str()),
            CryptoError::Encryption(m) => join("Encryption failed: ", m.as_str()),
            CryptoError::Decryption(m) => join("Decryption failed: ", m.as_str()),
            CryptoError::RandomGeneration(m) => join("Random generation failed: ", m.as_str()),
            CryptoError::InvalidKey(m) => join("Invalid key: ", m.as_str()),
            CryptoError::VaultLocked => "Password manager is locked".to_owned(),
            CryptoError::MasterRequired => "Master password required to decrypt this secret".to_owned(),
            CryptoError::NotFound(m) => join("Not found: ", m.as_str()),
            CryptoError::AlreadyExists(m) => join("Already exists: ", m.as_str()),
        }
    }
}

/// Errors of the GitHub integration.
#[derive(Debug)]
pub enum GitHubError {
    /// GitHub authentication failed.
    AuthFailed(String),
    /// The GitHub access token has expired.
    TokenExpired,
    /// A network error occurred while communicating with GitHub.
    NetworkError(String),
    /// The GitHub API returned an error.
    ApiError(String),
    /// The user is not authenticated with GitHub.
    NotAuthenticated,
}

impl GitHubError {
    pub open spec fn spec_message(&self) -> Seq<char> {
        match self {
            GitHubError::AuthFailed(m) => prefixed("GitHub authentication failed: "@, m@),
            GitHubError::TokenExpired => "GitHub access token expired"@,
            GitHubError::NetworkError(m) => prefixed("GitHub network error: "@, m@),
            GitHubError::ApiError(m) => prefixed("GitHub API error: "@, m@),
            GitHubError::NotAuthenticated => "Not authenticated with GitHub"@,
        }
    }

    /// The human-readable description of this error.
    pub fn message(&self) -> (r: String)
        ensures
            r@ == self.spec_message(),
    {
        match self {
            GitHubError::AuthFailed(m) => join("GitHub authentication failed: ", m.as_str()),
            GitHubError::TokenExpired => "GitHub access token expired".to_owned(),
            GitHubError::NetworkError(m) => join("GitHub network error: ", m.as_str()),
            GitHubError::ApiError(m) => join("GitHub API error: ", m.as_str()),
            GitHubError::NotAuthenticated => "Not authenticated with GitHub".to_owned(),
        }
    }
}

/// Decimal digits of `n`, most significant first.
pub open spec fn decimal(n: nat) -> Seq<char>
    decreases n,
{
    if n < 10 {
        seq![digit_char(n)]
    } else {
        decimal(n / 10).push(digit_char(n % 10))
    }
}

pub open spec fn digit_char(d: nat) -> char {
    seq!['0', '1', '2', '3', '4', '5', '6', '7', '8', '9'][d as int]
}

fn push_decimal(n: usize, out: &mut Vec<char>)
    ensures
        final(out)@ == old(out)@ + decimal(n as nat),
    decreases n,
{
    if n >= 10 {
        push_decimal(n / 10, out);
    }
    let digits = ['0', '1', '2', '3', '4', '5', '6', '7', '8', '9'];
    let d = digits[n % 10];
    assert(d == digit_char((n % 10) as nat));
    out.push(d);
    assert(final(out)@ =~= old(out)@ + decimal(n as nat));
}

/// Relies on `FromIterator<char>` for `String`: the string of the given characters, in order.
#[verifier::external_body]
pub(crate) fn string_from_chars(chars: &Vec<char>) -> (r: String)
    ensures
        r@ == chars@,
{
    chars.iter().collect()
}

/// The decimal text of `n`.
pub fn decimal_text(n: usize) -> (r: String)
    ensures
        r@ == decimal(n as nat),
{
    let mut digits: Vec<char> = Vec::new();
    push_decimal(n, &mut digits);
    assert(digits@ =~= decimal(n as nat));
    string_from_chars(&digits)
}

/// Errors related to tab management operations.
#[derive(Debug)]
pub enum TabError {
    /// Tab with the given ID was not found.
    NotFound(String),
    /// A tab with the given ID already exists.
    AlreadyExists(String),
    /// The provided tab index is out of bounds.
    InvalidIndex(usize),
}

impl TabError {
    pub open spec fn spec_message(&self) -> Seq<char> {
        match self {
            TabError::NotFound(m) => prefixed("Tab not found: "@, m@),
            TabError::AlreadyExists(m) => prefixed("Tab already exists: "@, m@),
            TabError::InvalidIndex(m) => prefixed("Invalid tab index: "@, decimal(*m as nat)),
        }
    }

    /// The human-readable description of this error.
    pub fn message(&self) -> (r: String)
        ensures
            r@ == self.spec_message(),
    {
        match self {
            TabError::NotFound(m) => join("Tab not found: ", m.as_str()),
            TabError::AlreadyExists(m) => join("Tab already exists: ", m.as_str()),
            TabError::InvalidIndex(m) => join("Invalid tab index: ", decimal_text(*m).as_str()),
        }
    }
}

/// Errors related to bookmark management operations.
#[derive(Debug)]
pub enum BookmarkError {
    /// Bookmark with the given ID was not found.
    NotFound(String),
    /// A bookmark with the same URL already exists.
    DuplicateUrl(String),
    /// The target folder was not found.
    FolderNotFound(String),
    /// Database operation failed.
    DatabaseError(String),
}

impl BookmarkError {
    pub open spec fn spec_message(&self) -> Seq<char> {
        match self {
            BookmarkError::NotFound(m) => prefixed("Bookmark not found: "@, m@),
            BookmarkError::DuplicateUrl(m) => prefixed("Duplicate bookmark URL: "@, m@),
            BookmarkError::FolderNotFound(m) => prefixed("Bookmark folder not found: "@, m@),
            BookmarkError::DatabaseError(m) => prefixed("Bookmark database error: "@, m@),
        }
    }

    /// The human-readable description of this error.
    pub fn message(&self) -> (r: String)
        ensures
            r@ == self.spec_message(),
    {
        match self {
            BookmarkError::NotFound(m) => join("Bookmark not found: ", m.as_str()),
            BookmarkError::DuplicateUrl(m) => join("Duplicate bookmark URL: ", m.as_str()),
            BookmarkError::FolderNotFound(m) => join("Bookmark folder not found: ", m.as_str()),
            BookmarkError::DatabaseError(m) => join("Bookmark database error: ", m.as_str()),
        }
    }
}

/// Errors related to browsing history operations.
#[derive(Debug)]
pub enum HistoryError {
    /// History entry with the given ID was not found.
    NotFound(String),
    /// Database operation failed.
    DatabaseError(String),
}

impl HistoryError {
    pub open spec fn spec_message(&self) -> Seq<char> {
        match self {
            HistoryError::NotFound(m) => prefixed("History entry not found: "@, m@),
            HistoryError::DatabaseError(m) => prefixed("History database error: "@, m@),
        }
    }

    /// The human-readable description of this error.
    pub fn message(&self) -> (r: String)
        ensures
            r@ == self.spec_message(),
    {
        match self {
            HistoryError::NotFound(m) => join("History entry not found: ", m.as_str()),
            HistoryError::DatabaseError(m) => join("History database error: ", m.as_str()),
        }
    }
}

/// Errors related to download management operations.
#[derive(Debug)]
pub enum DownloadError {
    /// Download with the given ID was not found.
    NotFound(String),
    /// A network error occurred during download.
    NetworkError(String),
    /// A file system error occurred.
    FileSystemError(String),
    /// The download has already completed.
    AlreadyCompleted(String),
}

impl DownloadError {
    pub open spec fn spec_message(&self) -> Seq<char> {
        match self {
            DownloadError::NotFound(m) => prefixed("Download not found: "@, m@),
            DownloadError::NetworkError(m) => prefixed("Download network error: "@, m@),
            DownloadError::FileSystemError(m) => prefixed("Download file system error: "@, m@),
            DownloadError::AlreadyCompleted(m) => prefixed("Download already completed: "@, m@),
        }
    }

    /// The human-readable description of this error.
    pub fn message(&self) -> (r: String)
        ensures
            r@ == self.spec_message(),
    {
        match self {
            DownloadError::NotFound(m) => join("Download not found: ", m.as_str()),
            DownloadError::NetworkError(m) => join("Download network error: ", m.as_str()),
            DownloadError::FileSystemError(m) => join("Download file system error: ", m.as_str()),
            DownloadError::AlreadyCompleted(m) => join("Download already completed: ", m.as_str()),
        }
    }
}

/// Errors related to site permission management.
#[derive(Debug)]
pub enum PermissionError {
    /// Permission entry was not found.
    NotFound(String),
    /// Database operation failed.
    DatabaseError(String),
    /// The provided origin is invalid.
    InvalidOrigin(String),
}

impl PermissionError {
    pub open spec fn spec_message(&self) -> Seq<char> {
        match self {
            PermissionError::NotFound(m) => prefixed("Permission not found: "@, m@),
            PermissionError::DatabaseError(m) => prefixed("Permission database error: "@, m@),
            PermissionError::InvalidOrigin(m) => prefixed("Invalid origin: "@, m@),
        }
    }

    /// The human-readable description of this error.
    pub fn message(&self) -> (r: String)
        ensures
            r@ == self.spec_message(),
    {
        match self {
            PermissionError::NotFound(m) => join("Permission not found: ", m.as_str()),
            PermissionError::DatabaseError(m) => join("Permission database error: ", m.as_str()),
            PermissionError::InvalidOrigin(m) => join("Invalid origin: ", m.as_str()),
        }
    }
}

/// Errors related to keyboard shortcut management.
#[derive(Debug)]
pub enum ShortcutError {
    /// Shortcut for the given action was not found.
    NotFound(String),
    /// The shortcut keys conflict with an existing binding.
    Conflict(String),
    /// The provided key combination is invalid.
    InvalidKeys(String),
}

impl ShortcutError {
    pub open spec fn spec_message(&self) -> Seq<char> {
        match self {
            ShortcutError::NotFound(m) => prefixed("Shortcut not found for action: "@, m@),
            ShortcutError::Conflict(m) => prefixed("Shortcut conflict: "@, m@),
            ShortcutError::InvalidKeys(m) => prefixed("Invalid shortcut keys: "@, m@),
        }
    }

    /// The human-readable description of this error.
    pub fn message(&self) -> (r: String)
        ensures
            r@ == self.spec_message(),
    {
        match self {
            ShortcutError::NotFound(m) => join("Shortcut not found for action: ", m.as_str()),
            ShortcutError::Conflict(m) => join("Shortcut conflict: ", m.as_str()),
            ShortcutError::InvalidKeys(m) => join("Invalid shortcut keys: ", m.as_str()),
        }
    }
}

/// Errors related to session management operations.
#[derive(Debug)]
pub enum SessionError {
    /// Failed to serialize or deserialize session data.
    SerializationError(String),
    /// Database operation failed.
    DatabaseError(String),
    /// Cryptographic operation failed during session encryption/decryption.
    CryptoError(String),
}

impl SessionError {
    pub open spec fn spec_message(&self) -> Seq<char> {
        match self {
            SessionError::SerializationError(m) => prefixed("Session serialization error: "@, m@),
            SessionError::DatabaseError(m) => prefixed("Session database error: "@, m@),
            SessionError::CryptoError(m) => prefixed("Session crypto error: "@, m@),
        }
    }

    /// The human-readable description of this error.
    pub fn message(&self) -> (r: String)
        ensures
            r@ == self.spec_message(),
    {
        match self {
            SessionError::SerializationError(m) => join("Session serialization error: ", m.as_str()),
            SessionError::DatabaseError(m) => join("Session database error: ", m.as_str()),
            SessionError::CryptoError(m) => join("Session crypto error: ", m.as_str()),
        }
    }
}

/// Errors related to settings management.
#[derive(Debug)]
pub enum SettingsError {
    /// An I/O error occurred while reading or writing settings.
    IoError(String),
    /// Failed to serialize or deserialize settings.
    SerializationError(String),
    /// The provided settings key is invalid.
    InvalidKey(String),
    /// The provided settings value is invalid.
    InvalidValue(String),
}

impl SettingsError {
    pub open spec fn spec_message(&self) -> Seq<char> {
        match self {
            SettingsError::IoError(m) => prefixed("Settings I/O error: "@, m@),
            SettingsError::SerializationError(m) => prefixed("Settings serialization error: "@, m@),
            SettingsError::InvalidKey(m) => prefixed("Invalid settings key: "@, m@),
            SettingsError::InvalidValue(m) => prefixed("Invalid settings value: "@, m@),
        }
    }

    /// The human-readable description of this error.
    pub fn message(&self) -> (r: String)
        ensures
            r@ == self.spec_message(),
    {
        match self {
            SettingsError::IoError(m) => join("Settings I/O error: ", m.as_str()),
            SettingsError::SerializationError(m) => join("Settings serialization error: ", m.as_str()),
            SettingsError::InvalidKey(m) => join("Invalid settings key: ", m.as_str()),
            SettingsError::InvalidValue(m) => join("Invalid settings value: ", m.as_str()),
        }
    }
}

/// Errors related to AI assistant operations.
#[derive(Debug)]
pub enum AIError {
    /// No AI provider has been configured.
    NoProvider,
    /// The provided API key is invalid.
    InvalidApiKey(String),
    /// A network error occurred while communicating with the AI provider.
    NetworkError(String),
    /// The AI provider rate-limited the request.
    RateLimited(String),
    /// The AI provider returned an error.
    ProviderError(String),
}

impl AIError {
    pub open spec fn spec_message(&self) -> Seq<char> {
        match self {
            AIError::NoProvider => "No AI provider configured"@,
            AIError::InvalidApiKey(m) => prefixed("Invalid API key: "@, m@),
            AIError::NetworkError(m) => prefixed("AI network error: "@, m@),
            AIError::RateLimited(m) => prefixed("AI rate limited: "@, m@),
            AIError::ProviderError(m) => prefixed("AI provider error: "@, m@),
        }
    }

    /// The human-readable description of this error.
    pub fn message(&self) -> (r: String)
        ensures
            r@ == self.spec_message(),
    {
        match self {
            AIError::NoProvider => "No AI provider configured".to_owned(),
            AIError::InvalidApiKey(m) => join("Invalid API key: ", m.as_str()),
            AIError::NetworkError(m) => join("AI network error: ", m.as_str()),
            AIError::RateLimited(m) => join("AI rate limited: ", m.as_str()),
            AIError::ProviderError(m) => join("AI provider error: ", m.as_str()),
        }
    }
}

/// Errors related to privacy engine operations.
#[derive(Debug)]
pub enum PrivacyError {
    /// Failed to load or parse filter lists.
    FilterListError(String),
    /// DNS-over-HTTPS configuration or resolution failed.
    DnsError(String),
    /// Failed to clear private browsing data.
    ClearDataError(String),
}

impl PrivacyError {
    pub open spec fn spec_message(&self) -> Seq<char> {
        match self {
            PrivacyError::FilterListError(m) => prefixed("Filter list error: "@, m@),
            PrivacyError::DnsError(m) => prefixed("DNS error: "@, m@),
            PrivacyError::ClearDataError(m) => prefixed("Clear data error: "@, m@),
        }
    }

    /// The human-readable description of this error.
    pub fn message(&self) -> (r: String)
        ensures
            r@ == self.spec_message(),
    {
        match self {
            PrivacyError::FilterListError(m) => join("Filter list error: ", m.as_str()),
            PrivacyError::DnsError(m) => join("DNS error: ", m.as_str()),
            PrivacyError::ClearDataError(m) => join("Clear data error: ", m.as_str()),
        }
    }
}

/// Errors related to extension framework operations.
#[derive(Debug)]
pub enum ExtensionError {
    /// Extension with the given ID was not found.
    NotFound(String),
    /// The extension manifest is invalid.
    InvalidManifest(String),
    /// The extension does not have the required permissions.
    PermissionDenied(String),
    /// Failed to load the extension.
    LoadError(String),
}

impl ExtensionError {
    pub open spec fn spec_message(&self) -> Seq<char> {
        match self {
            ExtensionError::NotFound(m) => prefixed("Extension not found: "@, m@),
            ExtensionError::InvalidManifest(m) => prefixed("Invalid extension manifest: "@, m@),
            ExtensionError::PermissionDenied(m) => prefixed("Extension permission denied: "@, m@),
            ExtensionError::LoadError(m) => prefixed("Extension load error: "@, m@),
        }
    }

    /// The human-readable description of this error.
    pub fn message(&self) -> (r: String)
        ensures
            r@ == self.spec_message(),
    {
        match self {
            ExtensionError::NotFound(m) => join("Extension not found: ", m.as_str()),
            ExtensionError::InvalidManifest(m) => join("Invalid extension manifest: ", m.as_str()),
            ExtensionError::PermissionDenied(m) => join("Extension permission denied: ", m.as_str()),
            ExtensionError::LoadError(m) => join("Extension load error: ", m.as_str()),
        }
    }
}

/// Errors related to reader mode operations.
#[derive(Debug)]
pub enum ReaderError {
    /// Failed to extract article content from the page.
    ExtractionFailed(String),
    /// The page does not contain article content.
    NotAnArticle,
}

impl ReaderError {
    pub open spec fn spec_message(&self) -> Seq<char> {
        match self {
            ReaderError::ExtractionFailed(m) => prefixed("Content extraction failed: "@, m@),
            ReaderError::NotAnArticle => "Page is not an article"@,
        }
    }

    /// The human-readable description of this error.
    pub fn message(&self) -> (r: String)
        ensures
            r@ == self.spec_message(),
    {
        match self {
            ReaderError::ExtractionFailed(m) => join("Content extraction failed: ", m.as_str()),
            ReaderError::NotAnArticle => "Page is not an article".to_owned(),
        }
    }
}

/// Errors related to theme engine operations.
#[derive(Debug)]
pub enum ThemeError {
    /// The provided color value is invalid.
    InvalidColor(String),
    /// Failed to parse or apply CSS.
    CssError(String),
}

impl ThemeError {
    pub open spec fn spec_message(&self) -> Seq<char> {
        match self {
            ThemeError::InvalidColor(m) => prefixed("Invalid color: "@, m@),
            ThemeError::CssError(m) => prefixed("CSS error: "@, m@),
        }
    }

    /// The human-readable description of this error.
    pub fn message(&self) -> (r: String)
        ensures
            r@ == self.spec_message(),
    {
        match self {
            ThemeError::InvalidColor(m) => join("Invalid color: ", m.as_str()),
            ThemeError::CssError(m) => join("CSS error: ", m.as_str()),
        }
    }
}

/// Errors related to localization engine operations.
#[derive(Debug)]
pub enum LocaleError {
    /// The requested locale is not supported.
    UnsupportedLocale(String),
    /// A localized string key is missing from the locale file.
    MissingKey(String),
    /// The locale file was not found.
    FileNotFound(String),
}

impl LocaleError {
    pub open spec fn spec_message(&self) -> Seq<char> {
        match self {
            LocaleError::UnsupportedLocale(m) => prefixed("Unsupported locale: "@, m@),
            LocaleError::MissingKey(m) => prefixed("Missing locale key: "@, m@),
            LocaleError::FileNotFound(m) => prefixed("Locale file not found: "@, m@),
        }
    }

    /// The human-readable description of this error.
    pub fn message(&self) -> (r: String)
        ensures
            r@ == self.spec_message(),
    {
        match self {
            LocaleError::UnsupportedLocale(m) => join("Unsupported locale: ", m.as_str()),
            LocaleError::MissingKey(m) => join("Missing locale key: ", m.as_str()),
            LocaleError::FileNotFound(m) => join("Locale file not found: ", m.as_str()),
        }
    }
}

/// Errors related to crash recovery operations.
#[derive(Debug)]
pub enum CrashError {
    /// Database operation failed.
    DatabaseError(String),
    /// Failed to recover from a crash.
    RecoveryFailed(String),
}

impl CrashError {
    pub open spec fn spec_message(&self) -> Seq<char> {
        match self {
            CrashError::DatabaseError(m) => prefixed("Crash recovery database error: "@, m@),
            CrashError::RecoveryFailed(m) => prefixed("Crash recovery failed: "@, m@),
        }
    }

    /// The human-readable description of this error.
    pub fn message(&self) -> (r: String)
        ensures
            r@ == self.spec_message(),
    {
        match self {
            CrashError::DatabaseError(m) => join("Crash recovery database error: ", m.as_str()),
            CrashError::RecoveryFailed(m) => join("Crash recovery failed: ", m.as_str()),
        }
    }
}

/// Errors related to update manager operations.
#[derive(Debug)]
pub enum UpdateError {
    /// A network error occurred while checking for or downloading updates.
    NetworkError(String),
    /// The downloaded file's checksum does not match the expected value.
    ChecksumMismatch(String),
    /// Failed to install the update.
    InstallFailed(String),
    /// Failed to parse update information.
    ParseError(String),
}

impl UpdateError {
    pub open spec fn spec_message(&self) -> Seq<char> {
        match self {
            UpdateError::NetworkError(m) => prefixed("Update network error: "@, m@),
            UpdateError::ChecksumMismatch(m) => prefixed("Update checksum mismatch: "@, m@),
            UpdateError::InstallFailed(m) => prefixed("Update installation failed: "@, m@),
            UpdateError::ParseError(m) => prefixed("Update parse error: "@, m@),
        }
    }

    /// The human-readable description of this error.
    pub fn message(&self) -> (r: String)
        ensures
            r@ == self.spec_message(),
    {
        match self {
            UpdateError::NetworkError(m) => join("Update network error: ", m.as_str()),
            UpdateError::ChecksumMismatch(m) => join("Update checksum mismatch: ", m.as_str()),
            UpdateError::InstallFailed(m) => join("Update installation failed: ", m.as_str()),
            UpdateError::ParseError(m) => join("Update parse error: ", m.as_str()),
        }
    }
}

} // verus!

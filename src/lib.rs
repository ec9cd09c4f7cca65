//! Encrypted secret vault of a browser: AEAD and key-derivation primitives, a
//! master-password vault for credentials, per-provider secret stores that can be rekeyed
//! to the master key, and a named-secret facade. Around it: the browser's error types and
//! data records, base64 for binary data at the process boundary, and the privacy, theme,
//! platform-directory, settings and update logic.

pub mod errors;
pub mod credential;
pub mod crypto;
pub mod vault;
pub mod dependent;
pub mod providers;
pub mod facade;
pub mod context;
pub mod types;
pub mod codec;
pub mod privacy;
pub mod theme;
pub mod platform;
pub mod settings;
pub mod update;
pub mod shortcuts;

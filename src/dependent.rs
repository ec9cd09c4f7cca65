use vstd::prelude::*;

use crate::credential::{BlobView, EncryptedData};
use crate::crypto::{derived_key, seals, CryptoService, CryptoServiceTrait, AEAD_MAX_PLAINTEXT, KEY_LENGTH};
use crate::errors::CryptoError;

verus! {

/// Where a store's active key comes from.
#[derive(Debug, Clone, Copy, PartialEq, Eq, Structural)]
pub enum KeyOrigin {
    /// Derived from the store's built-in passphrase and salt.
    Fallback,
    /// The vault's master key, installed by a rekey.
    Master,
}

/// The state of a [`DependentSecretStore`].
pub struct StoreView {
    pub key: Seq<u8>,
    pub origin: KeyOrigin,
    pub row: Option<BlobView>,
    pub authenticated: bool,
}

pub open spec fn blob_view(row: Option<EncryptedData>) -> Option<BlobView> {
    match row {
        Some(b) => Some(b@),
        None => None,
    }
}

/// What `store(secret)` does.
pub open spec fn store_outcome(s0: StoreView, secret: Seq<u8>, s1: StoreView, r: Result<(), CryptoError>) -> bool {
    match r {
        Ok(_) => {
            &&& s1.row matches Some(b) && seals(b, s0.key, secret)
            &&& s1 == StoreView { row: s1.row, ..s0 }
        },
        Err(e) => s1 == s0 && (e is RandomGeneration || (e is Encryption && secret.len() > AEAD_MAX_PLAINTEXT)),
    }
}

/// What `get()` returns: nothing when no row is stored, else the one plaintext the row
/// seals under the active key, or `Decryption` when there is none.
pub open spec fn get_outcome(s: StoreView, r: Result<Option<Vec<u8>>, CryptoError>) -> bool {
    match s.row {
        None => r matches Ok(None),
        Some(b) => match r {
            Ok(Some(p)) => seals(b, s.key, p@) && forall|q: Seq<u8>| #[trigger] seals(b, s.key, q) ==> q == p@,
            Ok(None) => false,
            Err(e) => e is Decryption && forall|q: Seq<u8>| !#[trigger] seals(b, s.key, q),
        },
    }
}

/// A row is stored and no plaintext is sealed in it under `key`.
pub open spec fn undecryptable(row: Option<BlobView>, key: Seq<u8>) -> bool {
    row is Some && forall|q: Seq<u8>| !#[trigger] seals(row->Some_0, key, q)
}

/// What `rekey(master_key)` does. With a 32-byte master key: no stored row, or a row
/// that decrypts under the active key, is moved to the master key, which becomes active
/// (only the random nonce can fail); a row that does not decrypt gives `Decryption`. A
/// key of another length gives `InvalidKey`. On failure nothing changes.
pub open spec fn rekey_outcome(s0: StoreView, master_key: Seq<u8>, s1: StoreView, r: Result<(), CryptoError>) -> bool {
    match r {
        Ok(_) => {
            &&& master_key.len() == KEY_LENGTH
            &&& s1.key == master_key
            &&& s1.origin == KeyOrigin::Master
            &&& s1.authenticated == s0.authenticated
            &&& s0.row is None ==> s1.row is None
            &&& s0.row matches Some(b0) ==> (s1.row matches Some(b1)
                && (exists|q: Seq<u8>| #[trigger] seals(b0, s0.key, q))
                && forall|q: Seq<u8>| #[trigger] seals(b0, s0.key, q) ==> seals(b1, master_key, q))
        },
        Err(e) => {
            &&& s1 == s0
            &&& e is InvalidKey <==> master_key.len() != KEY_LENGTH
            &&& e is Decryption <==> (master_key.len() == KEY_LENGTH && undecryptable(s0.row, s0.key))
            &&& e is RandomGeneration ==> s0.row is Some
            &&& e is InvalidKey || e is Decryption || e is RandomGeneration
        },
    }
}

/// A provider's secret, kept encrypted under a fallback key until rekeyed to the
/// master key. It holds at most one stored secret.
pub struct DependentSecretStore {
    crypto: CryptoService,
    key: Vec<u8>,
    origin: KeyOrigin,
    row: Option<EncryptedData>,
    authenticated: bool,
}

impl View for DependentSecretStore {
    type V = StoreView;

    closed spec fn view(&self) -> StoreView {
        StoreView { key: self.key@, origin: self.origin, row: blob_view(self.row), authenticated: self.authenticated }
    }
}

impl DependentSecretStore {
    pub open spec fn wf(&self) -> bool {
        self@.key.len() == KEY_LENGTH
    }

    /// A store over its persisted row, keyed by the fallback key derived from `passphrase`
    /// and `salt`. It counts as authenticated exactly when a row was persisted.
    pub fn new(passphrase: &str, salt: &[u8], row: Option<EncryptedData>) -> (r: Result<Self, CryptoError>)
        ensures
            r matches Ok(s) && s.wf() && s@ == (StoreView {
                key: derived_key(passphrase@, salt@),
                origin: KeyOrigin::Fallback,
                row: blob_view(row),
                authenticated: row is Some,
            }),
    {
        let crypto = CryptoService::new();
        let key = match crypto.derive_key(passphrase, salt) {
            Ok(k) => k,
            Err(e) => return Err(e),
        };
        Ok(Self::with_fallback_key(key, row))
    }

    /// A store over its persisted row, keyed by an already derived fallback key.
    pub fn with_fallback_key(key: Vec<u8>, row: Option<EncryptedData>) -> (r: Self)
        requires
            key@.len() == KEY_LENGTH,
        ensures
            r.wf(),
            r@ == (StoreView { key: key@, origin: KeyOrigin::Fallback, row: blob_view(row), authenticated: row is Some }),
    {
        let authenticated = row.is_some();
        DependentSecretStore { crypto: CryptoService::new(), key, origin: KeyOrigin::Fallback, row, authenticated }
    }

    /// The stored row, for writing back to storage.
    pub fn row(&self) -> (r: Option<&EncryptedData>)
        ensures
            r matches Some(b) ==> self@.row == Some(b@),
            r is None ==> self@.row is None,
    {
        self.row.as_ref()
    }

    /// Whether a row was persisted when the store was built.
    pub fn is_authenticated(&self) -> (r: bool)
        ensures
            r == self@.authenticated,
    {
        self.authenticated
    }

    pub fn key_origin(&self) -> (r: KeyOrigin)
        ensures
            r == self@.origin,
    {
        self.origin
    }

    /// Encrypts `data` under the active key without storing it.
    pub fn encrypt_with_active_key(&self, data: &[u8]) -> (r: Result<EncryptedData, CryptoError>)
        requires
            self.wf(),
        ensures
            match r {
                Ok(b) => seals(b@, self@.key, data@),
                Err(e) => e is RandomGeneration || (e is Encryption && data@.len() > AEAD_MAX_PLAINTEXT),
            },
    {
        self.crypto.encrypt_aes256gcm(data, self.key.as_slice())
    }

    /// Decrypts `blob` under the active key.
    pub fn decrypt_with_active_key(&self, blob: &EncryptedData) -> (r: Result<Vec<u8>, CryptoError>)
        requires
            self.wf(),
        ensures
            crate::crypto::decrypt_outcome(blob@, self@.key, r),
    {
        self.crypto.decrypt_aes256gcm(blob, self.key.as_slice())
    }

    /// Encrypts `secret` under the active key and stores it, replacing any earlier one.
    pub fn store(&mut self, secret: &[u8]) -> (r: Result<(), CryptoError>)
        requires
            old(self).wf(),
        ensures
            final(self).wf(),
            store_outcome(old(self)@, secret@, final(self)@, r),
    {
        let blob = match self.encrypt_with_active_key(secret) {
            Ok(b) => b,
            Err(e) => return Err(e),
        };
        self.row = Some(blob);
        Ok(())
    }

    /// The stored secret, decrypted under the active key.
    pub fn get(&self) -> (r: Result<Option<Vec<u8>>, CryptoError>)
        requires
            self.wf(),
        ensures
            get_outcome(self@, r),
    {
        match &self.row {
            None => Ok(None),
            Some(b) => match self.decrypt_with_active_key(b) {
                Ok(p) => Ok(Some(p)),
                Err(e) => Err(e),
            },
        }
    }

    /// Removes the stored secret; the store no longer counts as authenticated.
    pub fn clear(&mut self)
        ensures
            final(self)@ == (StoreView { row: None, authenticated: false, ..old(self)@ }),
    {
        self.row = None;
        self.authenticated = false;
    }

    /// Re-encrypts the stored secret under `master_key` and makes that key active. A row
    /// that does not decrypt under the current key is left untouched.
    pub fn rekey(&mut self, master_key: &[u8]) -> (r: Result<(), CryptoError>)
        requires
            old(self).wf(),
        ensures
            final(self).wf(),
            rekey_outcome(old(self)@, master_key@, final(self)@, r),
    {
        if master_key.len() != KEY_LENGTH {
            return Err(CryptoError::InvalidKey("key must be 32 bytes".to_owned()));
        }
        let new_row = match &self.row {
            None => None,
            Some(b) => {
                let plaintext = match self.decrypt_with_active_key(b) {
                    Ok(p) => p,
                    Err(e) => return Err(e),
                };
                assert(seals(b@, self@.key, plaintext@));
                assert(plaintext@.len() <= AEAD_MAX_PLAINTEXT);
                assert(exists|q: Seq<u8>| #[trigger] seals(b@, self@.key, q));
                assert(self@.row == Some(b@));
                assert(self@.row->Some_0 == b@);
                assert(!undecryptable(self@.row, self@.key));
                match self.crypto.encrypt_aes256gcm(plaintext.as_slice(), master_key) {
                    Ok(b1) => Some(b1),
                    Err(e) => return Err(e),
                }
            },
        };
        self.crypto.zeroize_memory(self.key.as_mut_slice());
        self.key = crate::crypto::bytes_of(master_key);
        self.origin = KeyOrigin::Master;
        self.row = new_row;
        Ok(())
    }
}

/// Rekeying keeps the value: a secret stored under the fallback key is what `get`
/// returns after a successful rekey to the master key.
pub proof fn lemma_rekey_preserves_value(
    s0: StoreView,
    secret: Seq<u8>,
    s1: StoreView,
    master_key: Seq<u8>,
    s2: StoreView,
    r: Result<Option<Vec<u8>>, CryptoError>,
)
    requires
        store_outcome(s0, secret, s1, Ok(())),
        rekey_outcome(s1, master_key, s2, Ok(())),
        get_outcome(s2, r),
    ensures
        r matches Ok(Some(p)) && p@ == secret,
{
    let b1 = s1.row->Some_0;
    assert(seals(b1, s1.key, secret));
    assert(seals(s2.row->Some_0, master_key, secret));
}

/// A failed rekey leaves the store, its row and its active key exactly as they were.
pub proof fn lemma_failed_rekey_keeps_row(s0: StoreView, master_key: Seq<u8>, s1: StoreView, e: CryptoError)
    requires
        rekey_outcome(s0, master_key, s1, Err(e)),
    ensures
        s1 == s0,
{
}

} // verus!

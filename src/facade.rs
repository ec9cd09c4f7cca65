use vstd::prelude::*;
use vstd::utf8::{decode_utf8, encode_utf8, valid_utf8};

use crate::credential::{BlobView, EncryptedData};
use crate::crypto::{seals, CryptoService, CryptoServiceTrait, AEAD_MAX_PLAINTEXT};
use crate::dependent::DependentSecretStore;
use crate::errors::CryptoError;
use crate::vault::{string_eq, unix_now, utf8_text, PasswordManager};

verus! {

broadcast use vstd::utf8::encode_utf8_decode_utf8, vstd::utf8::decode_utf8_encode_utf8, vstd::utf8::encode_utf8_valid_utf8;

/// One named secret as persisted, with the key it was encrypted under.
pub struct PersistedSecret {
    pub key: String,
    pub blob: EncryptedData,
    pub uses_master: bool,
    pub updated_at: i64,
}

/// The contents of a [`PersistedSecret`].
pub struct SecretRowView {
    pub key: Seq<char>,
    pub blob: BlobView,
    pub uses_master: bool,
    pub updated_at: i64,
}

impl View for PersistedSecret {
    type V = SecretRowView;

    open spec fn view(&self) -> SecretRowView {
        SecretRowView { key: self.key@, blob: self.blob@, uses_master: self.uses_master, updated_at: self.updated_at }
    }
}

impl Clone for PersistedSecret {
    fn clone(&self) -> (r: Self)
        ensures
            r@ == self@,
    {
        PersistedSecret { key: self.key.clone(), blob: self.blob.clone(), uses_master: self.uses_master, updated_at: self.updated_at }
    }
}

pub open spec fn row_views(v: Seq<PersistedSecret>) -> Seq<SecretRowView> {
    v.map_values(|r: PersistedSecret| r@)
}

/// The row that holds the secret `name`: the last one stored under that name.
pub open spec fn row_named(rows: Seq<SecretRowView>, name: Seq<char>) -> Option<SecretRowView>
    decreases rows.len(),
{
    if rows.len() == 0 {
        None
    } else if rows.last().key == name {
        Some(rows.last())
    } else {
        row_named(rows.drop_last(), name)
    }
}

/// The rows without those stored under `name`.
pub open spec fn without_name(rows: Seq<SecretRowView>, name: Seq<char>) -> Seq<SecretRowView>
    decreases rows.len(),
{
    if rows.len() == 0 {
        rows
    } else {
        let rest = without_name(rows.drop_last(), name);
        if rows.last().key == name {
            rest
        } else {
            rest.push(rows.last())
        }
    }
}

/// Dropping the rows of `name` removes that secret and keeps every other.
proof fn lemma_without_name(rows: Seq<SecretRowView>, name: Seq<char>, other: Seq<char>)
    ensures
        row_named(without_name(rows, name), name) is None,
        other != name ==> row_named(without_name(rows, name), other) == row_named(rows, other),
    decreases rows.len(),
{
    if rows.len() > 0 {
        lemma_without_name(rows.drop_last(), name, other);
        let rest = without_name(rows.drop_last(), name);
        if rows.last().key != name {
            assert(rest.push(rows.last()).drop_last() =~= rest);
        }
    }
}

/// What `store(name, value)` does, given the vault key (while unlocked) and the fallback
/// store's active key.
pub open spec fn store_secret_outcome(
    rows0: Seq<SecretRowView>,
    master: Option<Seq<u8>>,
    fallback: Seq<u8>,
    name: Seq<char>,
    value: Seq<char>,
    rows1: Seq<SecretRowView>,
    r: Result<(), CryptoError>,
) -> bool {
    match r {
        Ok(_) => {
            &&& row_named(rows1, name) matches Some(row) && row.uses_master == master is Some
                && seals(row.blob, match master { Some(k) => k, None => fallback }, encode_utf8(value))
            &&& forall|n: Seq<char>| n != name ==> #[trigger] row_named(rows1, n) == row_named(rows0, n)
        },
        Err(e) => rows1 == rows0 && (e is RandomGeneration || (e is Encryption && encode_utf8(value).len() > AEAD_MAX_PLAINTEXT)),
    }
}

/// The key a row is read with.
pub open spec fn read_key(row: SecretRowView, master: Option<Seq<u8>>, fallback: Seq<u8>) -> Seq<u8> {
    if row.uses_master {
        master->Some_0
    } else {
        fallback
    }
}

/// What `get(name)` returns, given the vault key (while unlocked) and the fallback store's
/// active key.
pub open spec fn get_secret_outcome(
    rows: Seq<SecretRowView>,
    master: Option<Seq<u8>>,
    fallback: Seq<u8>,
    name: Seq<char>,
    r: Result<Option<String>, CryptoError>,
) -> bool {
    match row_named(rows, name) {
        None => r matches Ok(None),
        Some(row) => if row.uses_master && master is None {
            r matches Err(CryptoError::MasterRequired)
        } else {
            let k = read_key(row, master, fallback);
            match r {
                Ok(Some(t)) => seals(row.blob, k, encode_utf8(t@))
                    && forall|q: Seq<u8>| #[trigger] seals(row.blob, k, q) ==> q == encode_utf8(t@),
                Ok(None) => false,
                Err(e) => e is Decryption && forall|q: Seq<u8>| #[trigger] seals(row.blob, k, q) ==> !valid_utf8(q),
            }
        },
    }
}

/// Named secrets, each encrypted under the master key while the vault is unlocked and
/// under the fallback store's key otherwise; each row records which.
pub struct SecretStoreFacade {
    crypto: CryptoService,
    rows: Vec<PersistedSecret>,
}

impl View for SecretStoreFacade {
    type V = Seq<SecretRowView>;

    closed spec fn view(&self) -> Seq<SecretRowView> {
        row_views(self.rows@)
    }
}

impl SecretStoreFacade {
    /// An empty facade.
    pub fn new() -> (r: Self)
        ensures
            r@.len() == 0,
    {
        let r = SecretStoreFacade { crypto: CryptoService::new(), rows: Vec::new() };
        assert(r@ =~= Seq::<SecretRowView>::empty());
        r
    }

    /// The persisted rows, for writing back to storage.
    pub fn rows(&self) -> (r: &Vec<PersistedSecret>)
        ensures
            row_views(r@) == self@,
    {
        &self.rows
    }

    fn drop_name(&mut self, name: &str)
        ensures
            final(self)@ == without_name(old(self)@, name@),
    {
        let mut kept: Vec<PersistedSecret> = Vec::new();
        let mut i: usize = 0;
        while i < self.rows.len()
            invariant
                i <= self.rows@.len(),
                self.rows@ == old(self).rows@,
                row_views(kept@) == without_name(row_views(self.rows@.subrange(0, i as int)), name@),
            decreases self.rows@.len() - i,
        {
            let ghost before = kept@;
            assert(row_views(self.rows@.subrange(0, i + 1)).drop_last() =~= row_views(self.rows@.subrange(0, i as int)));
            if !string_eq(self.rows[i].key.as_str(), name) {
                kept.push(self.rows[i].clone());
                assert(row_views(kept@) =~= row_views(before).push(self.rows@[i as int]@));
            }
            i = i + 1;
        }
        assert(self.rows@.subrange(0, self.rows@.len() as int) =~= self.rows@);
        self.rows = kept;
    }

    /// Puts back a row read from storage, replacing any row of the same name.
    pub fn restore(&mut self, row: PersistedSecret)
        ensures
            row_named(final(self)@, row@.key) == Some(row@),
            forall|n: Seq<char>| n != row@.key ==> #[trigger] row_named(final(self)@, n) == row_named(old(self)@, n),
    {
        self.drop_name(row.key.as_str());
        let ghost mid = self@;
        let ghost rv = row@;
        self.rows.push(row);
        assert(self@ =~= mid.push(rv));
        assert(self@.drop_last() =~= mid);
        assert forall|n: Seq<char>| n != rv.key implies #[trigger] row_named(self@, n) == row_named(old(self)@, n) by {
            lemma_without_name(old(self)@, rv.key, n);
        }
    }

    /// Encrypts `value` and stores it under `name`, replacing any earlier value.
    pub fn store(&mut self, vault: &PasswordManager, fallback: &DependentSecretStore, name: &str, value: &str) -> (r: Result<(), CryptoError>)
        requires
            vault.wf(),
            fallback.wf(),
        ensures
            store_secret_outcome(old(self)@, vault@.key, fallback@.key, name@, value@, final(self)@, r),
    {
        let (blob, uses_master) = match vault.get_derived_key() {
            Some(k) => match self.crypto.encrypt_aes256gcm(value.as_bytes(), k.as_slice()) {
                Ok(b) => (b, true),
                Err(e) => return Err(e),
            },
            None => match fallback.encrypt_with_active_key(value.as_bytes()) {
                Ok(b) => (b, false),
                Err(e) => return Err(e),
            },
        };
        let row = PersistedSecret { key: name.to_owned(), blob, uses_master, updated_at: unix_now() };
        self.restore(row);
        Ok(())
    }

    /// Index of the row that holds `name`.
    fn find(&self, name: &str) -> (r: Option<usize>)
        ensures
            r matches Some(i) ==> i < self@.len() && row_named(self@, name@) == Some(self@[i as int]),
            r is None ==> row_named(self@, name@) is None,
    {
        let mut i: usize = self.rows.len();
        assert(self@.subrange(0, i as int) =~= self@);
        while i > 0
            invariant
                i <= self@.len(),
                row_named(self@, name@) == row_named(self@.subrange(0, i as int), name@),
            decreases i,
        {
            let ghost prefix = self@.subrange(0, i as int);
            assert(prefix.drop_last() =~= self@.subrange(0, i - 1));
            if string_eq(self.rows[i - 1].key.as_str(), name) {
                return Some(i - 1);
            }
            i = i - 1;
        }
        None
    }

    /// The secret stored under `name`; `None` when there is none. A secret stored under the
    /// master key is refused with `MasterRequired` while the vault is locked.
    pub fn get(&self, vault: &PasswordManager, fallback: &DependentSecretStore, name: &str) -> (r: Result<Option<String>, CryptoError>)
        requires
            vault.wf(),
            fallback.wf(),
        ensures
            get_secret_outcome(self@, vault@.key, fallback@.key, name@, r),
    {
        let i = match self.find(name) {
            Some(i) => i,
            None => return Ok(None),
        };
        let row = &self.rows[i];
        let plaintext = if row.uses_master {
            match vault.get_derived_key() {
                Some(k) => self.crypto.decrypt_aes256gcm(&row.blob, k.as_slice()),
                None => return Err(CryptoError::MasterRequired),
            }
        } else {
            fallback.decrypt_with_active_key(&row.blob)
        };
        match plaintext {
            Ok(p) => match utf8_text(p) {
                Some(t) => Ok(Some(t)),
                None => Err(CryptoError::Decryption("secret is not valid UTF-8".to_owned())),
            },
            Err(e) => Err(e),
        }
    }

    /// Removes the secret `name`; an unknown name is not an error.
    pub fn delete(&mut self, name: &str) -> (r: Result<(), CryptoError>)
        ensures
            r is Ok,
            row_named(final(self)@, name@) is None,
            forall|n: Seq<char>| n != name@ ==> #[trigger] row_named(final(self)@, n) == row_named(old(self)@, n),
    {
        self.drop_name(name);
        assert forall|n: Seq<char>| n != name@ implies #[trigger] row_named(self@, n) == row_named(old(self)@, n) by {
            lemma_without_name(old(self)@, name@, n);
        }
        proof {
            lemma_without_name(old(self)@, name@, name@);
        }
        Ok(())
    }
}

/// A secret stored while the vault is unlocked is refused with `MasterRequired` while the
/// vault is locked, and reads back unchanged once the vault holds the same key again.
pub proof fn lemma_master_secret_needs_unlock(
    rows0: Seq<SecretRowView>,
    master_key: Seq<u8>,
    fallback: Seq<u8>,
    name: Seq<char>,
    value: Seq<char>,
    rows1: Seq<SecretRowView>,
    locked: Result<Option<String>, CryptoError>,
    unlocked: Result<Option<String>, CryptoError>,
)
    requires
        store_secret_outcome(rows0, Some(master_key), fallback, name, value, rows1, Ok(())),
        get_secret_outcome(rows1, None, fallback, name, locked),
        get_secret_outcome(rows1, Some(master_key), fallback, name, unlocked),
    ensures
        locked matches Err(CryptoError::MasterRequired),
        unlocked matches Ok(Some(t)) && t@ == value,
{
    let row = row_named(rows1, name)->Some_0;
    assert(seals(row.blob, master_key, encode_utf8(value)));
    assert(row.uses_master);
    assert(read_key(row, Some(master_key), fallback) == master_key);
    assert(seals(row.blob, read_key(row, Some(master_key), fallback), encode_utf8(value)));
    assert(valid_utf8(encode_utf8(value)));
    if let Ok(Some(t)) = unlocked {
        assert(encode_utf8(value) == encode_utf8(t@));
        assert(decode_utf8(encode_utf8(t@)) == decode_utf8(encode_utf8(value)));
    }
}

} // verus!

use std::time::{SystemTime, UNIX_EPOCH};
use uuid::Builder;
use vstd::prelude::*;
use vstd::utf8::{decode_utf8, encode_utf8, valid_utf8};

use crate::credential::{BlobView, CredentialEntry, CredentialView, EncryptedData, PasswordGenOptions};
use crate::crypto::{bytes_equal, decrypt_outcome, derived_key, seals, CryptoService, CryptoServiceTrait, AEAD_MAX_PLAINTEXT, SALT_LENGTH};
use crate::errors::{string_from_chars, CryptoError};

verus! {

broadcast use vstd::utf8::encode_utf8_decode_utf8, vstd::utf8::decode_utf8_encode_utf8;

/// The marker whose encryption under the master key is the verification token.
pub const MASTER_KEY_VERIFY_PLAINTEXT: &'static str = "gitbrowser-master-key-verify-v1";

/// The bytes of the verification marker.
pub open spec fn verify_marker() -> Seq<u8> {
    encode_utf8(MASTER_KEY_VERIFY_PLAINTEXT@)
}

/// Relies on uuid's `Builder::from_random_bytes` and the hyphenated text form of `Uuid`
/// (36 characters): a version-4 identifier made from 16 random bytes.
#[verifier::external_body]
fn uuid_text(random: &[u8]) -> (r: String)
    requires
        random@.len() == 16,
    ensures
        r@.len() == 36,
{
    let mut bytes = [0u8; 16];
    bytes.copy_from_slice(random);
    Builder::from_random_bytes(bytes).into_uuid().to_string()
}

/// UTF-8 takes at most four bytes per character.
proof fn lemma_utf8_len(s: Seq<char>)
    ensures
        encode_utf8(s).len() <= 4 * s.len(),
    decreases s.len(),
{
    if s.len() > 0 {
        lemma_utf8_len(s.drop_first());
    }
}

/// Relies on `SystemTime::now`: seconds since the Unix epoch, 0 if the clock is before it.
#[verifier::external_body]
pub(crate) fn unix_now() -> (r: i64) {
    SystemTime::now().duration_since(UNIX_EPOCH).map(|d| d.as_secs() as i64).unwrap_or(0)
}

/// Relies on `String::from_utf8`: it succeeds exactly on valid UTF-8 and then holds the
/// decoded characters.
#[verifier::external_body]
pub(crate) fn utf8_text(bytes: Vec<u8>) -> (r: Option<String>)
    ensures
        r matches Some(s) ==> valid_utf8(bytes@) && s@ == decode_utf8(bytes@),
        r is None ==> !valid_utf8(bytes@),
{
    String::from_utf8(bytes).ok()
}

/// `a` and `b` hold the same text.
pub fn string_eq(a: &str, b: &str) -> (r: bool)
    ensures
        r == (a@ == b@),
{
    let ab = a.as_bytes();
    let bb = b.as_bytes();
    let r = bytes_equal(ab, bb);
    proof {
        if ab@ == bb@ {
            assert(decode_utf8(encode_utf8(a@)) == decode_utf8(encode_utf8(b@)));
        }
    }
    r
}

pub const UPPERCASE_CHARS: &'static str = "ABCDEFGHIJKLMNOPQRSTUVWXYZ";
pub const LOWERCASE_CHARS: &'static str = "abcdefghijklmnopqrstuvwxyz";
pub const DIGIT_CHARS: &'static str = "0123456789";
pub const SYMBOL_CHARS: &'static str = "!@#$%^&*()-_=+[]{}|;:,.<>?";

/// The characters a generated password draws from: those of every selected class, or the
/// lowercase letters when none is selected.
pub open spec fn password_charset(o: PasswordGenOptions) -> Seq<char> {
    let all = (if o.uppercase { UPPERCASE_CHARS@ } else { Seq::empty() })
        + (if o.lowercase { LOWERCASE_CHARS@ } else { Seq::empty() })
        + (if o.numbers { DIGIT_CHARS@ } else { Seq::empty() })
        + (if o.symbols { SYMBOL_CHARS@ } else { Seq::empty() });
    if all.len() == 0 { LOWERCASE_CHARS@ } else { all }
}

/// An archive of credentials sealed under a key derived from an export password.
pub struct ExportArchive {
    pub salt: Vec<u8>,
    pub data: EncryptedData,
}

/// The vault's persisted records: the salt, the verification token and the credentials.
pub struct VaultRecords {
    pub master_salt: Option<Vec<u8>>,
    pub verification_token: Option<EncryptedData>,
    pub credentials: Vec<CredentialEntry>,
}

/// The contents of [`VaultRecords`].
pub struct RecordsView {
    pub salt: Option<Seq<u8>>,
    pub token: Option<BlobView>,
    pub credentials: Seq<CredentialView>,
}

pub open spec fn credential_views(v: Seq<CredentialEntry>) -> Seq<CredentialView> {
    v.map_values(|e: CredentialEntry| e@)
}

impl View for VaultRecords {
    type V = RecordsView;

    open spec fn view(&self) -> RecordsView {
        RecordsView {
            salt: match self.master_salt {
                Some(s) => Some(s@),
                None => None,
            },
            token: match self.verification_token {
                Some(t) => Some(t@),
                None => None,
            },
            credentials: credential_views(self.credentials@),
        }
    }
}

impl VaultRecords {
    /// Records of a vault that has never been unlocked.
    pub fn new() -> (r: Self)
        ensures
            r@.salt is None,
            r@.token is None,
            r@.credentials.len() == 0,
    {
        let r = VaultRecords { master_salt: None, verification_token: None, credentials: Vec::new() };
        assert(r@.credentials =~= Seq::<CredentialView>::empty());
        r
    }
}

/// Position of the credential with identifier `id`.
pub open spec fn index_of_id(c: Seq<CredentialView>, id: Seq<char>) -> int {
    choose|i: int| 0 <= i < c.len() && #[trigger] c[i].id == id
}

/// `c` with `e` put in: it replaces the credential of the same id, else it is appended.
pub open spec fn upsert(c: Seq<CredentialView>, e: CredentialView) -> Seq<CredentialView> {
    if has_id(c, e.id) {
        c.update(index_of_id(c, e.id), e)
    } else {
        c.push(e)
    }
}

/// `c` with every entry of `es` put in, in order.
pub open spec fn upsert_all(c: Seq<CredentialView>, es: Seq<CredentialView>) -> Seq<CredentialView>
    decreases es.len(),
{
    if es.len() == 0 {
        c
    } else {
        upsert(upsert_all(c, es.drop_last()), es.last())
    }
}

/// Index of the first entry of `s` updated strictly before `t`, or the length of `s`.
pub open spec fn first_older(s: Seq<CredentialView>, t: i64) -> int
    decreases s.len(),
{
    if s.len() == 0 {
        0
    } else if s[0].updated_at < t {
        0
    } else {
        1 + first_older(s.drop_first(), t)
    }
}

/// `s`, newest first, with `e` placed after every entry updated no earlier than it.
pub open spec fn insert_newest_first(s: Seq<CredentialView>, e: CredentialView) -> Seq<CredentialView> {
    s.insert(first_older(s, e.updated_at), e)
}

/// The credentials ordered by last update, newest first; entries updated at the same
/// time keep their stored order.
pub open spec fn newest_first(c: Seq<CredentialView>) -> Seq<CredentialView>
    decreases c.len(),
{
    if c.len() == 0 {
        c
    } else {
        insert_newest_first(newest_first(c.drop_last()), c.last())
    }
}

proof fn lemma_first_older_index(s: Seq<CredentialView>, t: i64, i: int)
    requires
        0 <= i <= s.len(),
        forall|j: int| 0 <= j < i ==> s[j].updated_at >= t,
        i < s.len() ==> s[i].updated_at < t,
    ensures
        first_older(s, t) == i,
    decreases s.len(),
{
    if s.len() > 0 && i > 0 {
        lemma_first_older_index(s.drop_first(), t, i - 1);
    }
}

/// No two credentials share an identifier.
pub open spec fn ids_unique(c: Seq<CredentialView>) -> bool {
    forall|i: int, j: int| 0 <= i < c.len() && 0 <= j < c.len() && i != j ==> c[i].id != c[j].id
}

/// Some credential has identifier `id`.
pub open spec fn has_id(c: Seq<CredentialView>, id: Seq<char>) -> bool {
    exists|i: int| 0 <= i < c.len() && #[trigger] c[i].id == id
}

/// The credentials saved for `url`, in stored order.
pub open spec fn entries_for_url(c: Seq<CredentialView>, url: Seq<char>) -> Seq<CredentialView>
    decreases c.len(),
{
    if c.len() == 0 {
        c
    } else {
        let rest = entries_for_url(c.drop_last(), url);
        if c.last().url == url {
            rest.push(c.last())
        } else {
            rest
        }
    }
}

/// The state of a vault: its records, and the master key while unlocked.
pub struct VaultView {
    pub records: RecordsView,
    pub key: Option<Seq<u8>>,
}

/// The vault's invariant.
pub open spec fn vault_wf(v: VaultView) -> bool {
    &&& v.records.token is Some ==> v.records.salt is Some
    &&& v.key matches Some(k) ==> v.records.token matches Some(t) && seals(t, k, verify_marker())
    &&& ids_unique(v.records.credentials)
}

/// What `unlock(password)` does to a vault in state `v0`.
pub open spec fn unlock_outcome(v0: VaultView, password: Seq<char>, v1: VaultView, r: Result<bool, CryptoError>) -> bool {
    match v0.records.token {
        Some(t) => {
            let key = derived_key(password, v0.records.salt->Some_0);
            &&& r matches Ok(ok)
            &&& ok == seals(t, key, verify_marker())
            &&& ok ==> v1 == VaultView { key: Some(key), ..v0 }
            &&& !ok ==> v1 == v0
        },
        None => {
            &&& v1.records.credentials == v0.records.credentials
            &&& v0.records.salt is Some ==> v1.records.salt == v0.records.salt
            &&& v0.records.salt is None ==> (v1.records.salt matches Some(s) && s.len() == SALT_LENGTH) || v1.records.salt is None
            &&& match r {
                Ok(ok) => {
                    &&& ok
                    &&& v1.records.salt matches Some(s) && v1.key == Some(derived_key(password, s))
                    &&& v1.records.token is Some
                },
                Err(e) => {
                    &&& e is RandomGeneration
                    &&& v1.key == v0.key
                    &&& v1.records.token is None
                },
            }
        },
    }
}

/// The credentials of `v1` are those of `v0` with one more at the end, saved for
/// `url` and `username` with `password` sealed under the vault key.
pub open spec fn saved_one(v0: VaultView, v1: VaultView, id: Seq<char>, url: Seq<char>, username: Seq<char>, password: Seq<char>) -> bool {
    let c = v1.records.credentials;
    let e = c.last();
    &&& c.len() == v0.records.credentials.len() + 1
    &&& c.drop_last() == v0.records.credentials
    &&& e.id == id
    &&& e.url == url
    &&& e.username == username
    &&& seals(e.blob, v0.key->Some_0, encode_utf8(password))
    &&& e.created_at == e.updated_at
    &&& v1.key == v0.key
    &&& v1.records.salt == v0.records.salt
    &&& v1.records.token == v0.records.token
}

/// The text of an optional string argument.
pub open spec fn text_of(o: Option<&str>) -> Option<Seq<char>> {
    match o {
        Some(s) => Some(s@),
        None => None,
    }
}

/// `v1` is `v0` with credential `i` updated: the username replaced when one is given,
/// the password re-encrypted under the vault key when one is given.
pub open spec fn updated_at_index(v0: VaultView, v1: VaultView, i: int, username: Option<Seq<char>>, password: Option<Seq<char>>) -> bool {
    let c0 = v0.records.credentials;
    let c1 = v1.records.credentials;
    &&& c1.len() == c0.len()
    &&& forall|j: int| 0 <= j < c0.len() && j != i ==> #[trigger] c1[j] == c0[j]
    &&& c1[i].id == c0[i].id
    &&& c1[i].url == c0[i].url
    &&& c1[i].created_at == c0[i].created_at
    &&& c1[i].username == match username {
        Some(u) => u,
        None => c0[i].username,
    }
    &&& match password {
        Some(p) => seals(c1[i].blob, v0.key->Some_0, encode_utf8(p)),
        None => c1[i].blob == c0[i].blob,
    }
    &&& username is None && password is None ==> c1[i] == c0[i]
    &&& v1.key == v0.key
    &&& v1.records.salt == v0.records.salt
    &&& v1.records.token == v0.records.token
}

/// A first unlock that succeeds commits the password: the vault is then unlocked with the
/// key derived from it, and every later unlock with that password, while the salt and
/// verification token are as that unlock left them, returns true with the same key.
pub proof fn lemma_first_unlock_commits_password(
    v0: VaultView,
    password: Seq<char>,
    v1: VaultView,
    r1: Result<bool, CryptoError>,
    v2: VaultView,
    v3: VaultView,
    r3: Result<bool, CryptoError>,
)
    requires
        v0.records.token is None,
        unlock_outcome(v0, password, v1, r1),
        vault_wf(v1),
        r1 is Ok,
        v2.records.salt == v1.records.salt,
        v2.records.token == v1.records.token,
        unlock_outcome(v2, password, v3, r3),
    ensures
        r1 == Ok::<bool, CryptoError>(true),
        v1.key is Some,
        r3 == Ok::<bool, CryptoError>(true),
        v3.key == v1.key,
{
}

/// An unlock that returns false leaves the vault exactly as it was.
pub proof fn lemma_failed_unlock_changes_nothing(v0: VaultView, password: Seq<char>, v1: VaultView)
    requires
        unlock_outcome(v0, password, v1, Ok(false)),
    ensures
        v1 == v0,
{
}

/// Right after an unlock that returns true the vault is unlocked, so the credential
/// operations no longer answer `VaultLocked`.
pub proof fn lemma_unlock_true_unlocks(v0: VaultView, password: Seq<char>, v1: VaultView)
    requires
        unlock_outcome(v0, password, v1, Ok(true)),
    ensures
        v1.key is Some,
{
}

/// Master-password vault for credentials.
pub struct PasswordManager {
    crypto: CryptoService,
    records: VaultRecords,
    derived_key: Option<Vec<u8>>,
}

impl View for PasswordManager {
    type V = VaultView;

    closed spec fn view(&self) -> VaultView {
        VaultView {
            records: self.records@,
            key: match self.derived_key {
                Some(k) => Some(k@),
                None => None,
            },
        }
    }
}

impl PasswordManager {
    pub open spec fn wf(&self) -> bool {
        vault_wf(self@)
    }

    /// A locked vault over previously persisted records.
    pub fn new(records: VaultRecords) -> (r: Self)
        requires
            records@.token is Some ==> records@.salt is Some,
            ids_unique(records@.credentials),
        ensures
            r.wf(),
            r@ == (VaultView { records: records@, key: None }),
    {
        PasswordManager { crypto: CryptoService::new(), records, derived_key: None }
    }

    /// The persisted records, for writing back to storage.
    pub fn records(&self) -> (r: &VaultRecords)
        ensures
            r@ == self@.records,
    {
        &self.records
    }

    /// A copy of the live master key while unlocked.
    pub fn get_derived_key(&self) -> (r: Option<Vec<u8>>)
        ensures
            r matches Some(k) ==> self@.key == Some(k@),
            r is None ==> self@.key is None,
    {
        match &self.derived_key {
            Some(k) => Some(k.clone()),
            None => None,
        }
    }

    pub fn is_unlocked(&self) -> (r: bool)
        ensures
            r == self@.key is Some,
    {
        self.derived_key.is_some()
    }

    fn discard_key(&mut self)
        ensures
            final(self)@ == (VaultView { key: None, ..old(self)@ }),
    {
        if let Some(k) = &mut self.derived_key {
            self.crypto.zeroize_memory(k.as_mut_slice());
        }
        self.derived_key = None;
    }

    /// Zeroizes and drops the master key. Idempotent.
    pub fn lock(&mut self)
        requires
            old(self).wf(),
        ensures
            final(self).wf(),
            final(self)@ == (VaultView { key: None, ..old(self)@ }),
    {
        self.discard_key();
    }

    /// The salt, created and persisted on first use.
    fn master_salt(&mut self) -> (r: Result<Vec<u8>, CryptoError>)
        requires
            old(self).wf(),
        ensures
            final(self).wf(),
            final(self)@.key == old(self)@.key,
            final(self)@.records.token == old(self)@.records.token,
            final(self)@.records.credentials == old(self)@.records.credentials,
            old(self)@.records.salt is Some ==> final(self)@ == old(self)@ && r is Ok,
            old(self)@.records.salt is None ==> (final(self)@.records.salt matches Some(s) && s.len() == SALT_LENGTH) || final(self)@ == old(self)@,
            r matches Ok(s) ==> final(self)@.records.salt == Some(s@),
            r matches Err(e) ==> e is RandomGeneration && final(self)@ == old(self)@,
    {
        if let Some(s) = &self.records.master_salt {
            return Ok(s.clone());
        }
        let salt = match self.crypto.generate_salt() {
            Ok(s) => s,
            Err(e) => return Err(e),
        };
        self.records.master_salt = Some(salt.clone());
        Ok(salt)
    }

    /// Unlocks with the master password. On the first unlock ever, the password becomes the
    /// master password. A wrong password gives `Ok(false)` and changes nothing.
    pub fn unlock(&mut self, master_password: &str) -> (r: Result<bool, CryptoError>)
        requires
            old(self).wf(),
        ensures
            final(self).wf(),
            unlock_outcome(old(self)@, master_password@, final(self)@, r),
    {
        let salt = match self.master_salt() {
            Ok(s) => s,
            Err(e) => return Err(e),
        };
        let key = match self.crypto.derive_key(master_password, salt.as_slice()) {
            Ok(k) => k,
            Err(e) => return Err(e),
        };
        let marker = MASTER_KEY_VERIFY_PLAINTEXT.as_bytes();
        proof {
            reveal_strlit("gitbrowser-master-key-verify-v1");
            lemma_utf8_len(MASTER_KEY_VERIFY_PLAINTEXT@);
        }
        if let Some(token) = &self.records.verification_token {
            match self.crypto.decrypt_aes256gcm(token, key.as_slice()) {
                Ok(plaintext) => {
                    if bytes_equal(plaintext.as_slice(), marker) {
                        self.discard_key();
                        self.derived_key = Some(key);
                        return Ok(true);
                    }
                    return Ok(false);
                },
                Err(_) => return Ok(false),
            }
        }
        let token = match self.crypto.encrypt_aes256gcm(marker, key.as_slice()) {
            Ok(t) => t,
            Err(e) => return Err(e),
        };
        self.records.verification_token = Some(token);
        self.discard_key();
        self.derived_key = Some(key);
        Ok(true)
    }

    /// Saves a credential under a fresh random id, its password encrypted under the master
    /// key; returns the id.
    pub fn save_credential(&mut self, url: &str, username: &str, password: &str) -> (r: Result<String, CryptoError>)
        requires
            old(self).wf(),
        ensures
            final(self).wf(),
            old(self)@.key is None <==> r matches Err(CryptoError::VaultLocked),
            r matches Ok(id) ==> id@.len() == 36 && !has_id(old(self)@.records.credentials, id@)
                && saved_one(old(self)@, final(self)@, id@, url@, username@, password@),
            r matches Err(e) ==> e is VaultLocked || e is RandomGeneration || e is AlreadyExists
                || (e is Encryption && encode_utf8(password@).len() > AEAD_MAX_PLAINTEXT),
            r is Err ==> final(self)@ == old(self)@,
    {
        if self.derived_key.is_none() {
            return Err(CryptoError::VaultLocked);
        }
        let random = match self.crypto.generate_random_bytes(16) {
            Ok(b) => b,
            Err(e) => return Err(e),
        };
        let id = uuid_text(random.as_slice());
        match self.save_credential_as(id.as_str(), url, username, password) {
            Ok(()) => Ok(id),
            Err(e) => Err(e),
        }
    }

    /// Saves a credential under the given id, its password encrypted under the master key.
    /// An id already in use is refused.
    pub fn save_credential_as(&mut self, id: &str, url: &str, username: &str, password: &str) -> (r: Result<(), CryptoError>)
        requires
            old(self).wf(),
        ensures
            final(self).wf(),
            old(self)@.key is None <==> r matches Err(CryptoError::VaultLocked),
            old(self)@.key is Some && has_id(old(self)@.records.credentials, id@)
                ==> (r matches Err(CryptoError::AlreadyExists(x)) && x@ == id@),
            old(self)@.key is Some && !has_id(old(self)@.records.credentials, id@) ==> (r is Ok || (r matches Err(e)
                && (e is RandomGeneration || (e is Encryption && encode_utf8(password@).len() > AEAD_MAX_PLAINTEXT)))),
            r is Ok ==> saved_one(old(self)@, final(self)@, id@, url@, username@, password@),
            r is Err ==> final(self)@ == old(self)@,
    {
        let key = match &self.derived_key {
            Some(k) => k.clone(),
            None => return Err(CryptoError::VaultLocked),
        };
        if self.position_of(id).is_some() {
            return Err(CryptoError::AlreadyExists(id.to_owned()));
        }
        let encrypted = match self.crypto.encrypt_aes256gcm(password.as_bytes(), key.as_slice()) {
            Ok(e) => e,
            Err(e) => return Err(e),
        };
        let now = unix_now();
        let ghost old_creds = self.records.credentials@;
        let entry = CredentialEntry {
            id: id.to_owned(),
            url: url.to_owned(),
            username: username.to_owned(),
            encrypted_password: encrypted.ciphertext,
            iv: encrypted.iv,
            auth_tag: encrypted.auth_tag,
            created_at: now,
            updated_at: now,
        };
        self.records.credentials.push(entry);
        assert(credential_views(self.records.credentials@) =~= credential_views(old_creds).push(entry@));
        assert(credential_views(self.records.credentials@).drop_last() =~= credential_views(old_creds));
        Ok(())
    }

    /// Index of the credential with identifier `id`.
    fn position_of(&self, id: &str) -> (r: Option<usize>)
        ensures
            r matches Some(i) ==> i < self@.records.credentials.len() && self@.records.credentials[i as int].id == id@,
            r is None ==> !has_id(self@.records.credentials, id@),
    {
        let mut i: usize = 0;
        while i < self.records.credentials.len()
            invariant
                i <= self.records.credentials@.len(),
                forall|j: int| 0 <= j < i ==> #[trigger] self@.records.credentials[j].id != id@,
            decreases self.records.credentials@.len() - i,
        {
            if string_eq(&self.records.credentials[i].id, id) {
                return Some(i);
            }
            i = i + 1;
        }
        None
    }

    /// The credentials saved for `url`; passwords stay encrypted.
    pub fn get_credentials(&self, url: &str) -> (r: Result<Vec<CredentialEntry>, CryptoError>)
        ensures
            self@.key is None ==> r matches Err(CryptoError::VaultLocked),
            self@.key is Some ==> (r matches Ok(v) && credential_views(v@) == entries_for_url(self@.records.credentials, url@)),
    {
        if self.derived_key.is_none() {
            return Err(CryptoError::VaultLocked);
        }
        let creds = &self.records.credentials;
        let mut out: Vec<CredentialEntry> = Vec::new();
        let mut i: usize = 0;
        while i < creds.len()
            invariant
                i <= creds@.len(),
                creds == &self.records.credentials,
                credential_views(out@) == entries_for_url(credential_views(creds@.subrange(0, i as int)), url@),
            decreases creds@.len() - i,
        {
            let ghost before = out@;
            assert(credential_views(creds@.subrange(0, i + 1)).drop_last() =~= credential_views(creds@.subrange(0, i as int)));
            if string_eq(&creds[i].url, url) {
                out.push(creds[i].clone());
                assert(credential_views(out@) =~= credential_views(before).push(creds@[i as int]@));
            }
            i = i + 1;
        }
        assert(creds@.subrange(0, creds@.len() as int) =~= creds@);
        Ok(out)
    }

    /// Every credential, most recently updated first; passwords stay encrypted.
    pub fn list_all_credentials(&self) -> (r: Result<Vec<CredentialEntry>, CryptoError>)
        ensures
            self@.key is None ==> r matches Err(CryptoError::VaultLocked),
            self@.key is Some ==> (r matches Ok(v) && credential_views(v@) == newest_first(self@.records.credentials)),
    {
        if self.derived_key.is_none() {
            return Err(CryptoError::VaultLocked);
        }
        let creds = &self.records.credentials;
        let mut out: Vec<CredentialEntry> = Vec::new();
        let mut i: usize = 0;
        while i < creds.len()
            invariant
                i <= creds@.len(),
                credential_views(out@) == newest_first(credential_views(creds@.subrange(0, i as int))),
            decreases creds@.len() - i,
        {
            let ghost before = credential_views(out@);
            let ghost prefix = credential_views(creds@.subrange(0, i + 1));
            assert(prefix.drop_last() =~= credential_views(creds@.subrange(0, i as int)));
            assert(prefix.last() == creds@[i as int]@);
            let t = creds[i].updated_at;
            let mut p: usize = 0;
            while p < out.len() && out[p].updated_at >= t
                invariant
                    p <= out@.len(),
                    credential_views(out@) == before,
                    forall|j: int| 0 <= j < p ==> before[j].updated_at >= t,
                decreases out@.len() - p,
            {
                p = p + 1;
            }
            proof {
                lemma_first_older_index(before, t, p as int);
            }
            out.insert(p, creds[i].clone());
            assert(credential_views(out@) =~= before.insert(p as int, creds@[i as int]@));
            i = i + 1;
        }
        assert(creds@.subrange(0, creds@.len() as int) =~= creds@);
        Ok(out)
    }

    /// Decrypts the password of `entry` under the master key.
    pub fn decrypt_password(&self, entry: &CredentialEntry) -> (r: Result<String, CryptoError>)
        requires
            self.wf(),
        ensures
            self@.key is None ==> r matches Err(CryptoError::VaultLocked),
            self@.key matches Some(k) ==> match r {
                Ok(s) => seals(entry@.blob, k, encode_utf8(s@))
                    && forall|q: Seq<u8>| #[trigger] seals(entry@.blob, k, q) ==> q == encode_utf8(s@),
                Err(e) => e is Decryption && forall|p: Seq<u8>| #[trigger] seals(entry@.blob, k, p) ==> !valid_utf8(p),
            },
    {
        let key = match &self.derived_key {
            Some(k) => k,
            None => return Err(CryptoError::VaultLocked),
        };
        let encrypted = entry.encrypted();
        match self.crypto.decrypt_aes256gcm(&encrypted, key.as_slice()) {
            Ok(plaintext) => {
                let ghost p = plaintext@;
                match utf8_text(plaintext) {
                    Some(s) => Ok(s),
                    None => Err(CryptoError::Decryption("password is not valid UTF-8".to_owned())),
                }
            },
            Err(e) => Err(e),
        }
    }

    /// Changes the username and/or password of the credential `id`. Nothing is written
    /// unless every step succeeds.
    pub fn update_credential(&mut self, id: &str, username: Option<&str>, password: Option<&str>) -> (r: Result<(), CryptoError>)
        requires
            old(self).wf(),
        ensures
            final(self).wf(),
            old(self)@.key is None ==> r matches Err(CryptoError::VaultLocked),
            old(self)@.key is Some && !has_id(old(self)@.records.credentials, id@) ==> r matches Err(CryptoError::NotFound(_)),
            old(self)@.key is Some && has_id(old(self)@.records.credentials, id@) && password is None ==> r is Ok,
            old(self)@.key is Some && has_id(old(self)@.records.credentials, id@) ==> (r is Ok || (r matches Err(e)
                && (e is RandomGeneration || (e is Encryption && encode_utf8(password->Some_0@).len() > AEAD_MAX_PLAINTEXT)))),
            r is Ok ==> exists|i: int| #![auto] 0 <= i < old(self)@.records.credentials.len()
                && old(self)@.records.credentials[i].id == id@
                && updated_at_index(old(self)@, final(self)@, i, text_of(username), text_of(password)),
            r is Err ==> final(self)@ == old(self)@,
    {
        let ghost v0 = self@;
        let key = match &self.derived_key {
            Some(k) => k.clone(),
            None => return Err(CryptoError::VaultLocked),
        };
        let i = match self.position_of(id) {
            Some(i) => i,
            None => return Err(CryptoError::NotFound(id.to_owned())),
        };
        let new_blob = match password {
            Some(p) => match self.crypto.encrypt_aes256gcm(p.as_bytes(), key.as_slice()) {
                Ok(b) => Some(b),
                Err(e) => return Err(e),
            },
            None => None,
        };
        if username.is_none() && password.is_none() {
            assert(updated_at_index(v0, self@, i as int, text_of(username), text_of(password)));
            return Ok(());
        }
        let ghost old_creds = self.records.credentials@;
        let mut entry = self.records.credentials[i].clone();
        if let Some(u) = username {
            entry.username = u.to_owned();
        }
        if let Some(b) = new_blob {
            entry.encrypted_password = b.ciphertext;
            entry.iv = b.iv;
            entry.auth_tag = b.auth_tag;
        }
        entry.updated_at = unix_now();
        self.records.credentials.set(i, entry);
        assert(credential_views(self.records.credentials@) =~= credential_views(old_creds).update(i as int, entry@));
        assert(updated_at_index(v0, self@, i as int, text_of(username), text_of(password)));
        Ok(())
    }

    /// Removes the credential `id`; an unknown id changes nothing.
    pub fn delete_credential(&mut self, id: &str) -> (r: Result<(), CryptoError>)
        requires
            old(self).wf(),
        ensures
            final(self).wf(),
            old(self)@.key is None ==> (r matches Err(CryptoError::VaultLocked) && final(self)@ == old(self)@),
            old(self)@.key is Some ==> r is Ok,
            forall|i: int| 0 <= i < old(self)@.records.credentials.len() && #[trigger] old(self)@.records.credentials[i].id == id@
                && old(self)@.key is Some ==> final(self)@ == (VaultView {
                    records: RecordsView { credentials: old(self)@.records.credentials.remove(i), ..old(self)@.records },
                    ..old(self)@
                }),
            !has_id(old(self)@.records.credentials, id@) ==> final(self)@ == old(self)@,
    {
        if self.derived_key.is_none() {
            return Err(CryptoError::VaultLocked);
        }
        if let Some(i) = self.position_of(id) {
            let ghost old_creds = self.records.credentials@;
            let _ = self.records.credentials.remove(i);
            assert(credential_views(self.records.credentials@) =~= credential_views(old_creds).remove(i as int));
        }
        Ok(())
    }

    /// A random password of `options.length` characters drawn from the selected classes.
    pub fn generate_password(&self, options: &PasswordGenOptions) -> (r: Result<String, CryptoError>)
        ensures
            r matches Ok(p) ==> p@.len() == options.length
                && forall|i: int| 0 <= i < p@.len() ==> password_charset(*options).contains(#[trigger] p@[i]),
            r matches Err(e) ==> e is RandomGeneration,
    {
        proof {
            reveal_strlit("ABCDEFGHIJKLMNOPQRSTUVWXYZ");
            reveal_strlit("abcdefghijklmnopqrstuvwxyz");
            reveal_strlit("0123456789");
            reveal_strlit("!@#$%^&*()-_=+[]{}|;:,.<>?");
        }
        let mut charset = String::new();
        if options.uppercase {
            charset.append(UPPERCASE_CHARS);
        }
        if options.lowercase {
            charset.append(LOWERCASE_CHARS);
        }
        if options.numbers {
            charset.append(DIGIT_CHARS);
        }
        if options.symbols {
            charset.append(SYMBOL_CHARS);
        }
        if charset.as_str().unicode_len() == 0 {
            charset.append(LOWERCASE_CHARS);
        }
        assert(charset@ =~= password_charset(*options));
        let n = charset.as_str().unicode_len();
        let bytes = match self.crypto.generate_random_bytes(options.length) {
            Ok(b) => b,
            Err(e) => return Err(e),
        };
        let mut chars: Vec<char> = Vec::new();
        let mut i: usize = 0;
        while i < bytes.len()
            invariant
                i <= bytes@.len(),
                bytes@.len() == options.length,
                n == charset@.len(),
                n > 0,
                charset@ == password_charset(*options),
                chars@.len() == i,
                forall|j: int| 0 <= j < i ==> password_charset(*options).contains(#[trigger] chars@[j]),
            decreases bytes@.len() - i,
        {
            let c = charset.as_str().get_char(bytes[i] as usize % n);
            chars.push(c);
            i = i + 1;
        }
        Ok(string_from_chars(&chars))
    }

    /// Seals an exported payload under a fresh salt and a key derived from
    /// `export_password`, independent of the vault key. Only an unlocked vault exports.
    pub fn seal_export(&self, export_password: &str, payload: &[u8]) -> (r: Result<ExportArchive, CryptoError>)
        ensures
            self@.key is None ==> r matches Err(CryptoError::VaultLocked),
            r matches Ok(a) ==> a.salt@.len() == SALT_LENGTH && seals(a.data@, derived_key(export_password@, a.salt@), payload@),
            self@.key is Some ==> (r is Ok || (r matches Err(e)
                && (e is RandomGeneration || (e is Encryption && payload@.len() > AEAD_MAX_PLAINTEXT)))),
    {
        if self.derived_key.is_none() {
            return Err(CryptoError::VaultLocked);
        }
        let salt = match self.crypto.generate_salt() {
            Ok(s) => s,
            Err(e) => return Err(e),
        };
        let key = match self.crypto.derive_key(export_password, salt.as_slice()) {
            Ok(k) => k,
            Err(e) => return Err(e),
        };
        let data = match self.crypto.encrypt_aes256gcm(payload, key.as_slice()) {
            Ok(d) => d,
            Err(e) => return Err(e),
        };
        let mut key = key;
        self.crypto.zeroize_memory(key.as_mut_slice());
        Ok(ExportArchive { salt, data })
    }

    /// Opens an archive made by `seal_export` with its export password. Only an unlocked
    /// vault imports.
    pub fn open_export(&self, export_password: &str, archive: &ExportArchive) -> (r: Result<Vec<u8>, CryptoError>)
        ensures
            self@.key is None ==> r matches Err(CryptoError::VaultLocked),
            self@.key is Some ==> decrypt_outcome(archive.data@, derived_key(export_password@, archive.salt@), r),
    {
        if self.derived_key.is_none() {
            return Err(CryptoError::VaultLocked);
        }
        let key = match self.crypto.derive_key(export_password, archive.salt.as_slice()) {
            Ok(k) => k,
            Err(e) => return Err(e),
        };
        let r = self.crypto.decrypt_aes256gcm(&archive.data, key.as_slice());
        let mut key = key;
        self.crypto.zeroize_memory(key.as_mut_slice());
        r
    }

    /// Puts imported credentials into the vault, replacing those with the same id; returns
    /// how many were imported.
    pub fn import_credentials(&mut self, entries: Vec<CredentialEntry>) -> (r: Result<u32, CryptoError>)
        requires
            old(self).wf(),
            entries@.len() <= u32::MAX,
        ensures
            final(self).wf(),
            old(self)@.key is None ==> (r matches Err(CryptoError::VaultLocked) && final(self)@ == old(self)@),
            old(self)@.key is Some ==> r == Ok::<u32, CryptoError>(entries@.len() as u32),
            old(self)@.key is Some ==> final(self)@ == (VaultView {
                records: RecordsView {
                    credentials: upsert_all(old(self)@.records.credentials, credential_views(entries@)),
                    ..old(self)@.records
                },
                ..old(self)@
            }),
    {
        if self.derived_key.is_none() {
            return Err(CryptoError::VaultLocked);
        }
        let ghost v0 = self@;
        let mut count: u32 = 0;
        let mut i: usize = 0;
        while i < entries.len()
            invariant
                i <= entries@.len(),
                entries@.len() <= u32::MAX,
                count == i,
                vault_wf(self@),
                self@ == (VaultView {
                    records: RecordsView {
                        credentials: upsert_all(v0.records.credentials, credential_views(entries@.subrange(0, i as int))),
                        ..v0.records
                    },
                    ..v0
                }),
            decreases entries@.len() - i,
        {
            let ghost c0 = self@.records.credentials;
            let e = entries[i].clone();
            let ghost ev = e@;
            assert(credential_views(entries@.subrange(0, i + 1)).drop_last() =~= credential_views(entries@.subrange(0, i as int)));
            assert(credential_views(entries@.subrange(0, i + 1)).last() == ev);
            match self.position_of(e.id.as_str()) {
                Some(j) => {
                    let ghost old_creds = self.records.credentials@;
                    proof {
                        let k = index_of_id(c0, ev.id);
                        assert(0 <= k < c0.len() && c0[k].id == ev.id);
                    }
                    self.records.credentials.set(j, e);
                    assert(credential_views(self.records.credentials@) =~= credential_views(old_creds).update(j as int, ev));
                },
                None => {
                    let ghost old_creds = self.records.credentials@;
                    self.records.credentials.push(e);
                    assert(credential_views(self.records.credentials@) =~= credential_views(old_creds).push(ev));
                },
            }
            i = i + 1;
            count = count + 1;
        }
        assert(entries@.subrange(0, entries@.len() as int) =~= entries@);
        Ok(count)
    }
}

} // verus!

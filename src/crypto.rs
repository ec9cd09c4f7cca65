use ring::aead::{Aad, LessSafeKey, Nonce, UnboundKey, AES_256_GCM};
use ring::pbkdf2;
use ring::rand::{SecureRandom, SystemRandom};
use std::num::NonZeroU32;
use vstd::prelude::*;
use vstd::utf8::encode_utf8;
use zeroize::Zeroize;

use crate::credential::{BlobView, EncryptedData};
use crate::errors::CryptoError;

verus! {

/// PBKDF2 iteration count for key derivation.
pub const PBKDF2_ITERATIONS: u32 = 100_000;

/// Salt length in bytes for PBKDF2.
pub const SALT_LENGTH: usize = 16;

/// AES-256-GCM key length in bytes.
pub const KEY_LENGTH: usize = 32;

/// AES-256-GCM nonce length in bytes.
pub const NONCE_LENGTH: usize = 12;

/// AES-256-GCM authentication tag length in bytes.
pub const TAG_LENGTH: usize = 16;

/// Longest input one AES-256-GCM nonce can protect: 2^32 - 2 counter blocks of 16 bytes.
pub const AEAD_MAX_PLAINTEXT: u64 = 68_719_476_704;

/// The first `len` bytes of PBKDF2-HMAC-SHA256 over `secret` and `salt`.
pub uninterp spec fn pbkdf2_hmac_sha256(iterations: u32, salt: Seq<u8>, secret: Seq<u8>, len: nat) -> Seq<u8>;

/// AES-256-GCM with empty associated data: the ciphertext of `plaintext` followed by its tag.
pub uninterp spec fn aes_gcm_seal(key: Seq<u8>, nonce: Seq<u8>, plaintext: Seq<u8>) -> Seq<u8>;

/// Relies on ring::pbkdf2::derive with PBKDF2_HMAC_SHA256: it fills `out` with key
/// material that depends on the iteration count, salt, secret and length alone.
#[verifier::external_body]
fn pbkdf2_fill(iterations: u32, salt: &[u8], secret: &[u8], out: &mut Vec<u8>)
    requires
        iterations > 0,
        old(out)@.len() <= KEY_LENGTH,
    ensures
        final(out)@ == pbkdf2_hmac_sha256(iterations, salt@, secret@, old(out)@.len() as nat),
        final(out)@.len() == old(out)@.len(),
{
    if let Some(n) = NonZeroU32::new(iterations) {
        pbkdf2::derive(pbkdf2::PBKDF2_HMAC_SHA256, n, salt, secret, out.as_mut_slice());
    }
}

/// Relies on ring::rand::SystemRandom::fill: on success (`true`) the bytes of `dest` have
/// been overwritten with operating-system randomness; its length never changes.
#[verifier::external_body]
fn fill_random(dest: &mut Vec<u8>) -> (r: bool)
    ensures
        final(dest)@.len() == old(dest)@.len(),
{
    SystemRandom::new().fill(dest.as_mut_slice()).is_ok()
}

/// Relies on ring::aead::LessSafeKey::seal_in_place_append_tag with AES_256_GCM and empty
/// associated data: on success (`true`) `in_out` holds the ciphertext followed by the
/// 16-byte tag; ring refuses exactly the inputs longer than the per-nonce limit.
#[verifier::external_body]
fn aes_gcm_seal_in_place(key: &[u8], nonce: &[u8], in_out: &mut Vec<u8>) -> (r: bool)
    requires
        key@.len() == KEY_LENGTH,
        nonce@.len() == NONCE_LENGTH,
    ensures
        r ==> final(in_out)@ == aes_gcm_seal(key@, nonce@, old(in_out)@),
        r ==> final(in_out)@.len() == old(in_out)@.len() + TAG_LENGTH,
        r <==> old(in_out)@.len() <= AEAD_MAX_PLAINTEXT,
{
    let sealing = match UnboundKey::new(&AES_256_GCM, key) {
        Ok(k) => LessSafeKey::new(k),
        Err(_) => return false,
    };
    match Nonce::try_assume_unique_for_key(nonce) {
        Ok(n) => sealing.seal_in_place_append_tag(n, Aad::empty(), in_out).is_ok(),
        Err(_) => false,
    }
}

/// Relies on ring::aead::LessSafeKey::open_in_place with AES_256_GCM and empty associated
/// data: it succeeds exactly when `sealed` (ciphertext then tag) is the seal of some
/// plaintext under this key and nonce, and then yields that plaintext.
#[verifier::external_body]
fn aes_gcm_open(key: &[u8], nonce: &[u8], sealed: Vec<u8>) -> (r: Option<Vec<u8>>)
    requires
        key@.len() == KEY_LENGTH,
        nonce@.len() == NONCE_LENGTH,
        TAG_LENGTH <= sealed@.len() <= AEAD_MAX_PLAINTEXT + TAG_LENGTH,
    ensures
        r matches Some(p) ==> aes_gcm_seal(key@, nonce@, p@) == sealed@,
        r matches Some(p) ==> p@.len() + TAG_LENGTH == sealed@.len(),
        r is None ==> forall|p: Seq<u8>| aes_gcm_seal(key@, nonce@, p) != sealed@,
        r matches Some(q) ==> forall|p: Seq<u8>| #[trigger] aes_gcm_seal(key@, nonce@, p) == sealed@ ==> p == q@,
{
    let opening = LessSafeKey::new(UnboundKey::new(&AES_256_GCM, key).ok()?);
    let n = Nonce::try_assume_unique_for_key(nonce).ok()?;
    let mut buf = sealed;
    let len = opening.open_in_place(n, Aad::empty(), &mut buf).ok()?.len();
    buf.truncate(len);
    Some(buf)
}

/// Relies on zeroize's `Zeroize` impl for byte slices: every byte is overwritten with zero.
#[verifier::external_body]
fn zeroize_bytes(data: &mut [u8])
    ensures
        final(data)@ == Seq::new(old(data)@.len(), |i: int| 0u8),
{
    data.zeroize();
}

/// The 32-byte key that [`CryptoServiceTrait::derive_key`] gives for a password and salt.
pub open spec fn derived_key(password: Seq<char>, salt: Seq<u8>) -> Seq<u8> {
    pbkdf2_hmac_sha256(PBKDF2_ITERATIONS, salt, encode_utf8(password), KEY_LENGTH as nat)
}

/// `blob` is a well-formed AES-256-GCM encryption of `plaintext` under `key`.
pub open spec fn seals(blob: BlobView, key: Seq<u8>, plaintext: Seq<u8>) -> bool {
    &&& key.len() == KEY_LENGTH
    &&& blob.iv.len() == NONCE_LENGTH
    &&& blob.auth_tag.len() == TAG_LENGTH
    &&& blob.ciphertext.len() <= AEAD_MAX_PLAINTEXT
    &&& blob.ciphertext.len() == plaintext.len()
    &&& blob.ciphertext + blob.auth_tag == aes_gcm_seal(key, blob.iv, plaintext)
}

/// What `encrypt_aes256gcm(plaintext, key)` may return.
pub open spec fn encrypt_outcome(plaintext: Seq<u8>, key: Seq<u8>, r: Result<EncryptedData, CryptoError>) -> bool {
    if key.len() != KEY_LENGTH {
        r matches Err(CryptoError::InvalidKey(_))
    } else {
        match r {
            Ok(blob) => seals(blob@, key, plaintext),
            Err(e) => e is RandomGeneration || (e is Encryption && plaintext.len() > AEAD_MAX_PLAINTEXT),
        }
    }
}

/// What `decrypt_aes256gcm(blob, key)` returns: the one plaintext that `blob` seals,
/// and an error exactly when there is none.
pub open spec fn decrypt_outcome(blob: BlobView, key: Seq<u8>, r: Result<Vec<u8>, CryptoError>) -> bool {
    match r {
        Ok(p) => seals(blob, key, p@) && forall|q: Seq<u8>| #[trigger] seals(blob, key, q) ==> q == p@,
        Err(e) => {
            &&& forall|q: Seq<u8>| !#[trigger] seals(blob, key, q)
            &&& key.len() != KEY_LENGTH ==> e is InvalidKey
            &&& key.len() == KEY_LENGTH ==> e is Decryption
        },
    }
}

/// What `derive_key(password, salt)` returns.
pub open spec fn derive_outcome(password: Seq<char>, salt: Seq<u8>, r: Result<Vec<u8>, CryptoError>) -> bool {
    r matches Ok(k) && k@ == derived_key(password, salt) && k@.len() == KEY_LENGTH
}

/// `a` and `b` are equal; used to compare a decrypted marker with the expected one.
pub fn bytes_equal(a: &[u8], b: &[u8]) -> (r: bool)
    ensures
        r == (a@ == b@),
{
    if a.len() != b.len() {
        return false;
    }
    let mut i: usize = 0;
    while i < a.len()
        invariant
            a@.len() == b@.len(),
            i <= a@.len(),
            forall|j: int| 0 <= j < i ==> a@[j] == b@[j],
        decreases a@.len() - i,
    {
        if a[i] != b[i] {
            return false;
        }
        i = i + 1;
    }
    assert(a@ =~= b@);
    true
}

/// Splitting a concatenation at the length of its first part gives the parts back.
proof fn lemma_concat_parts(a1: Seq<u8>, b1: Seq<u8>, a2: Seq<u8>, b2: Seq<u8>)
    requires
        a1 + b1 == a2 + b2,
        b1.len() == b2.len(),
    ensures
        a1 == a2,
        b1 == b2,
{
    assert(a1 =~= (a1 + b1).subrange(0, a1.len() as int));
    assert(a2 =~= (a2 + b2).subrange(0, a2.len() as int));
    assert(b1 =~= (a1 + b1).subrange(a1.len() as int, (a1 + b1).len() as int));
    assert(b2 =~= (a2 + b2).subrange(a2.len() as int, (a2 + b2).len() as int));
}

/// Round trip: for every plaintext and every 32-byte key, decrypting what encryption
/// returned, under the same key, gives back the plaintext.
pub proof fn lemma_round_trip(plaintext: Seq<u8>, key: Seq<u8>, blob: EncryptedData, r: Result<Vec<u8>, CryptoError>)
    requires
        encrypt_outcome(plaintext, key, Ok(blob)),
        decrypt_outcome(blob@, key, r),
    ensures
        r matches Ok(p) && p@ == plaintext,
{
    assert(seals(blob@, key, plaintext));
}

/// Tampering with the ciphertext or the tag of an encryption, nonce kept, never lets the
/// altered blob decrypt to the original plaintext under the original key.
pub proof fn lemma_tampered_blob_never_yields_plaintext(
    plaintext: Seq<u8>,
    key: Seq<u8>,
    blob: EncryptedData,
    tampered: BlobView,
    r: Result<Vec<u8>, CryptoError>,
)
    requires
        encrypt_outcome(plaintext, key, Ok(blob)),
        tampered.iv == blob@.iv,
        tampered.ciphertext != blob@.ciphertext || tampered.auth_tag != blob@.auth_tag,
        decrypt_outcome(tampered, key, r),
    ensures
        !(r matches Ok(p) && p@ == plaintext),
{
    if r matches Ok(p) && p@ == plaintext {
        assert(seals(tampered, key, plaintext));
        lemma_concat_parts(tampered.ciphertext, tampered.auth_tag, blob@.ciphertext, blob@.auth_tag);
    }
}

/// Derivation is deterministic: two derivations from the same password and salt give
/// the same key.
pub proof fn lemma_derivation_deterministic(
    password: Seq<char>,
    salt: Seq<u8>,
    r1: Result<Vec<u8>, CryptoError>,
    r2: Result<Vec<u8>, CryptoError>,
)
    requires
        derive_outcome(password, salt, r1),
        derive_outcome(password, salt, r2),
    ensures
        r1 matches Ok(k1) && r2 matches Ok(k2) && k1@ == k2@,
{
}

/// Key derivation, authenticated encryption and secure randomness.
pub trait CryptoServiceTrait {
    /// Derives a 32-byte key from a password and salt with PBKDF2-HMAC-SHA256.
    fn derive_key(&self, password: &str, salt: &[u8]) -> (r: Result<Vec<u8>, CryptoError>)
        ensures
            derive_outcome(password@, salt@, r),
    ;

    /// Encrypts `plaintext` under `key` with a fresh random nonce.
    fn encrypt_aes256gcm(&self, plaintext: &[u8], key: &[u8]) -> (r: Result<EncryptedData, CryptoError>)
        ensures
            encrypt_outcome(plaintext@, key@, r),
    ;

    /// Checks and decrypts a blob produced by `encrypt_aes256gcm`.
    fn decrypt_aes256gcm(&self, encrypted: &EncryptedData, key: &[u8]) -> (r: Result<Vec<u8>, CryptoError>)
        ensures
            decrypt_outcome(encrypted@, key@, r),
    ;

    /// Generates a random salt of `SALT_LENGTH` bytes.
    fn generate_salt(&self) -> (r: Result<Vec<u8>, CryptoError>)
        ensures
            match r {
                Ok(s) => s@.len() == SALT_LENGTH,
                Err(e) => e is RandomGeneration,
            },
    ;

    /// Generates `length` random bytes.
    fn generate_random_bytes(&self, length: usize) -> (r: Result<Vec<u8>, CryptoError>)
        ensures
            match r {
                Ok(s) => s@.len() == length,
                Err(e) => e is RandomGeneration,
            },
    ;

    /// Overwrites `data` with zeros in place.
    fn zeroize_memory(&self, data: &mut [u8])
        ensures
            final(data)@ == Seq::new(old(data)@.len(), |i: int| 0u8),
    ;
}

/// The cryptographic service backed by ring.
pub struct CryptoService {}

impl CryptoService {
    pub fn new() -> Self {
        CryptoService {}
    }
}

fn zeroed(length: usize) -> (r: Vec<u8>)
    ensures
        r@ == Seq::new(length as nat, |i: int| 0u8),
{
    let mut v: Vec<u8> = Vec::new();
    let mut i: usize = 0;
    while i < length
        invariant
            i <= length,
            v@ == Seq::new(i as nat, |j: int| 0u8),
        decreases length - i,
    {
        v.push(0u8);
        i = i + 1;
        assert(v@ =~= Seq::new(i as nat, |j: int| 0u8));
    }
    v
}

/// A fresh vector holding the bytes of `s`.
pub fn bytes_of(s: &[u8]) -> (r: Vec<u8>)
    ensures
        r@ == s@,
{
    let mut v: Vec<u8> = Vec::new();
    let mut i: usize = 0;
    while i < s.len()
        invariant
            i <= s@.len(),
            v@ == s@.subrange(0, i as int),
        decreases s@.len() - i,
    {
        v.push(s[i]);
        i = i + 1;
        assert(v@ =~= s@.subrange(0, i as int));
    }
    assert(v@ =~= s@);
    v
}

impl CryptoServiceTrait for CryptoService {
    fn derive_key(&self, password: &str, salt: &[u8]) -> (r: Result<Vec<u8>, CryptoError>) {
        let mut key = zeroed(KEY_LENGTH);
        pbkdf2_fill(PBKDF2_ITERATIONS, salt, password.as_bytes(), &mut key);
        Ok(key)
    }

    fn encrypt_aes256gcm(&self, plaintext: &[u8], key: &[u8]) -> (r: Result<EncryptedData, CryptoError>) {
        if key.len() != KEY_LENGTH {
            return Err(CryptoError::InvalidKey("key must be 32 bytes".to_owned()));
        }
        let mut nonce = zeroed(NONCE_LENGTH);
        if !fill_random(&mut nonce) {
            return Err(CryptoError::RandomGeneration("failed to generate nonce".to_owned()));
        }
        let mut in_out = bytes_of(plaintext);
        if !aes_gcm_seal_in_place(key, nonce.as_slice(), &mut in_out) {
            return Err(CryptoError::Encryption("encryption operation failed".to_owned()));
        }
        let ghost sealed = in_out@;
        let tag_start = in_out.len() - TAG_LENGTH;
        let auth_tag = in_out.split_off(tag_start);
        assert(in_out@ + auth_tag@ =~= sealed);
        Ok(EncryptedData { ciphertext: in_out, iv: nonce, auth_tag })
    }

    fn decrypt_aes256gcm(&self, encrypted: &EncryptedData, key: &[u8]) -> (r: Result<Vec<u8>, CryptoError>) {
        if key.len() != KEY_LENGTH {
            return Err(CryptoError::InvalidKey("key must be 32 bytes".to_owned()));
        }
        if encrypted.iv.len() != NONCE_LENGTH {
            return Err(CryptoError::Decryption("IV must be 12 bytes".to_owned()));
        }
        if encrypted.auth_tag.len() != TAG_LENGTH {
            return Err(CryptoError::Decryption("auth tag must be 16 bytes".to_owned()));
        }
        if encrypted.ciphertext.len() as u64 > AEAD_MAX_PLAINTEXT {
            return Err(CryptoError::Decryption("ciphertext too long".to_owned()));
        }
        let mut sealed = encrypted.ciphertext.clone();
        let mut tag = encrypted.auth_tag.clone();
        sealed.append(&mut tag);
        assert(sealed@ =~= encrypted.ciphertext@ + encrypted.auth_tag@);
        match aes_gcm_open(key, encrypted.iv.as_slice(), sealed) {
            Some(p) => Ok(p),
            None => Err(CryptoError::Decryption("invalid key or corrupted data".to_owned())),
        }
    }

    fn generate_salt(&self) -> (r: Result<Vec<u8>, CryptoError>) {
        self.generate_random_bytes(SALT_LENGTH)
    }

    fn generate_random_bytes(&self, length: usize) -> (r: Result<Vec<u8>, CryptoError>) {
        let mut bytes = zeroed(length);
        if fill_random(&mut bytes) {
            Ok(bytes)
        } else {
            Err(CryptoError::RandomGeneration("failed to generate random bytes".to_owned()))
        }
    }

    fn zeroize_memory(&self, data: &mut [u8]) {
        zeroize_bytes(data);
    }
}

} // verus!

use vstd::prelude::*;

verus! {

/// Output of one authenticated encryption: ciphertext, nonce and tag kept apart.
pub struct EncryptedData {
    pub ciphertext: Vec<u8>,
    pub iv: Vec<u8>,
    pub auth_tag: Vec<u8>,
}

/// The bytes of an [`EncryptedData`].
pub struct BlobView {
    pub ciphertext: Seq<u8>,
    pub iv: Seq<u8>,
    pub auth_tag: Seq<u8>,
}

impl View for EncryptedData {
    type V = BlobView;

    open spec fn view(&self) -> BlobView {
        BlobView { ciphertext: self.ciphertext@, iv: self.iv@, auth_tag: self.auth_tag@ }
    }
}

impl Clone for EncryptedData {
    fn clone(&self) -> (r: Self)
        ensures
            r@ == self@,
    {
        EncryptedData {
            ciphertext: self.ciphertext.clone(),
            iv: self.iv.clone(),
            auth_tag: self.auth_tag.clone(),
        }
    }
}

/// A stored credential; the password is only held encrypted.
pub struct CredentialEntry {
    pub id: String,
    pub url: String,
    pub username: String,
    pub encrypted_password: Vec<u8>,
    pub iv: Vec<u8>,
    pub auth_tag: Vec<u8>,
    pub created_at: i64,
    pub updated_at: i64,
}

/// The contents of a [`CredentialEntry`].
pub struct CredentialView {
    pub id: Seq<char>,
    pub url: Seq<char>,
    pub username: Seq<char>,
    pub blob: BlobView,
    pub created_at: i64,
    pub updated_at: i64,
}

impl View for CredentialEntry {
    type V = CredentialView;

    open spec fn view(&self) -> CredentialView {
        CredentialView {
            id: self.id@,
            url: self.url@,
            username: self.username@,
            blob: BlobView {
                ciphertext: self.encrypted_password@,
                iv: self.iv@,
                auth_tag: self.auth_tag@,
            },
            created_at: self.created_at,
            updated_at: self.updated_at,
        }
    }
}

impl Clone for CredentialEntry {
    fn clone(&self) -> (r: Self)
        ensures
            r@ == self@,
    {
        CredentialEntry {
            id: self.id.clone(),
            url: self.url.clone(),
            username: self.username.clone(),
            encrypted_password: self.encrypted_password.clone(),
            iv: self.iv.clone(),
            auth_tag: self.auth_tag.clone(),
            created_at: self.created_at,
            updated_at: self.updated_at,
        }
    }
}

impl CredentialEntry {
    /// The encrypted password as a blob.
    pub fn encrypted(&self) -> (r: EncryptedData)
        ensures
            r@ == self@.blob,
    {
        EncryptedData {
            ciphertext: self.encrypted_password.clone(),
            iv: self.iv.clone(),
            auth_tag: self.auth_tag.clone(),
        }
    }
}

/// Options for generating a random password.
#[derive(Debug, Clone, Copy, PartialEq, Eq)]
pub struct PasswordGenOptions {
    pub length: usize,
    pub uppercase: bool,
    pub lowercase: bool,
    pub numbers: bool,
    pub symbols: bool,
}

} // verus!

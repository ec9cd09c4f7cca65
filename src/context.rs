use vstd::prelude::*;

use crate::errors::{CryptoError, GitHubError};
use crate::facade::{get_secret_outcome, store_secret_outcome, SecretStoreFacade};
use crate::crypto::KEY_LENGTH;
use crate::providers::{rekeyed, slot_rekeyed, AIAssistant, AIProviderName, GitHubIntegration};
use crate::vault::{unlock_outcome, PasswordManager};

verus! {

/// How each dependent store fared in a rekey.
pub struct RekeyReport {
    pub github: Result<(), GitHubError>,
    pub ai: Result<(), CryptoError>,
}

/// Moves every dependent store to `master_key`. A store that fails keeps its row and
/// key; the others are rekeyed regardless.
pub fn rekey_all(master_key: &[u8], github: &mut GitHubIntegration, ai: &mut AIAssistant) -> (r: RekeyReport)
    requires
        old(github).wf(),
        old(ai).wf(),
    ensures
        final(github).wf(),
        final(ai).wf(),
        rekeyed(old(github)@.token, master_key@, final(github)@.token, r.github is Ok),
        final(github)@.login == old(github)@.login,
        forall|p: AIProviderName| #[trigger] slot_rekeyed(old(ai)@.slot(p), master_key@, final(ai)@.slot(p), r.ai is Ok),
        master_key@.len() == KEY_LENGTH && (forall|p: AIProviderName| (#[trigger] old(ai)@.slot(p)).row is None) ==> r.ai is Ok,
{
    let g = github.rekey_with_master(master_key);
    let a = ai.rekey_with_master(master_key);
    RekeyReport { github: g, ai: a }
}

/// The secret subsystem of one process: the vault, the dependent stores and the named
/// secrets. The GitHub token store is the facade's fallback store.
pub struct SecretContext {
    pub vault: PasswordManager,
    pub github: GitHubIntegration,
    pub ai: AIAssistant,
    pub secrets: SecretStoreFacade,
    pub rekeyed: bool,
    pub last_rekey: Option<RekeyReport>,
}

impl SecretContext {
    pub open spec fn wf(&self) -> bool {
        &&& self.vault.wf()
        &&& self.github.wf()
        &&& self.ai.wf()
    }

    pub fn new(vault: PasswordManager, github: GitHubIntegration, ai: AIAssistant, secrets: SecretStoreFacade) -> (r: Self)
        ensures
            r.vault == vault,
            r.github == github,
            r.ai == ai,
            r.secrets == secrets,
            !r.rekeyed,
    {
        SecretContext { vault, github, ai, secrets, rekeyed: false, last_rekey: None }
    }

    /// Unlocks the vault; the first unlock of the session that returns true moves every
    /// dependent store to the new master key.
    pub fn unlock(&mut self, password: &str) -> (r: Result<bool, CryptoError>)
        requires
            old(self).wf(),
        ensures
            final(self).wf(),
            unlock_outcome(old(self).vault@, password@, final(self).vault@, r),
            final(self).secrets == old(self).secrets,
            r == Ok::<bool, CryptoError>(true) && !old(self).rekeyed ==> ({
                let k = final(self).vault@.key->Some_0;
                &&& final(self).rekeyed
                &&& final(self).last_rekey matches Some(rep)
                    && rekeyed(old(self).github@.token, k, final(self).github@.token, rep.github is Ok)
                    && forall|p: AIProviderName| #[trigger] slot_rekeyed(old(self).ai@.slot(p), k, final(self).ai@.slot(p), rep.ai is Ok)
            }),
            !(r == Ok::<bool, CryptoError>(true) && !old(self).rekeyed) ==> final(self).github == old(self).github
                && final(self).ai == old(self).ai && final(self).rekeyed == old(self).rekeyed,
    {
        let r = self.vault.unlock(password);
        if let Ok(true) = r {
            if !self.rekeyed {
                if let Some(k) = self.vault.get_derived_key() {
                    let report = rekey_all(k.as_slice(), &mut self.github, &mut self.ai);
                    self.rekeyed = true;
                    self.last_rekey = Some(report);
                }
            }
        }
        r
    }

    /// Locks the vault. Dependent stores keep the master key.
    pub fn lock(&mut self)
        requires
            old(self).wf(),
        ensures
            final(self).wf(),
            final(self).vault@ == (crate::vault::VaultView { key: None, ..old(self).vault@ }),
            final(self).github == old(self).github,
            final(self).ai == old(self).ai,
            final(self).secrets == old(self).secrets,
    {
        self.vault.lock();
    }

    pub fn is_unlocked(&self) -> (r: bool)
        ensures
            r == self.vault@.key is Some,
    {
        self.vault.is_unlocked()
    }

    /// Stores a named secret under the master key while unlocked, else under the GitHub
    /// store's active key.
    pub fn secret_store(&mut self, name: &str, value: &str) -> (r: Result<(), CryptoError>)
        requires
            old(self).wf(),
        ensures
            final(self).wf(),
            store_secret_outcome(old(self).secrets@, old(self).vault@.key, old(self).github@.token.key, name@, value@, final(self).secrets@, r),
            final(self).vault == old(self).vault,
            final(self).github == old(self).github,
    {
        self.secrets.store(&self.vault, self.github.token_store(), name, value)
    }

    /// Reads a named secret.
    pub fn secret_get(&self, name: &str) -> (r: Result<Option<String>, CryptoError>)
        requires
            self.wf(),
        ensures
            get_secret_outcome(self.secrets@, self.vault@.key, self.github@.token.key, name@, r),
    {
        self.secrets.get(&self.vault, self.github.token_store(), name)
    }

    /// Deletes a named secret; absence is not an error.
    pub fn secret_delete(&mut self, name: &str) -> (r: Result<(), CryptoError>)
        ensures
            r is Ok,
            crate::facade::row_named(final(self).secrets@, name@) is None,
            forall|n: Seq<char>| n != name@ ==> #[trigger] crate::facade::row_named(final(self).secrets@, n)
                == crate::facade::row_named(old(self).secrets@, n),
            final(self).vault == old(self).vault,
            final(self).github == old(self).github,
            final(self).ai == old(self).ai,
            old(self).wf() ==> final(self).wf(),
    {
        self.secrets.delete(name)
    }
}

} // verus!

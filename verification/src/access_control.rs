//! Username-to-public-key bindings and challenge-response adjudication.
//!
//! `AccessControl` holds only public keys, never secret keys.  Registration
//! is naively permissive on purpose: registering an existing username
//! silently overwrites the binding (last write wins), and nothing stops two
//! usernames from sharing one public key.  Verification is fail-closed: an
//! unknown username, malformed key or signature bytes, and a signature that
//! does not match all yield `false`, never a fault.

use vstd::hash_map::StringHashMap;
use vstd::prelude::*;

use crate::key_management::Identity;
use crate::key_management::KeyManager;
use crate::key_management::PUBLIC_KEY_LEN;
use crate::key_management::sig_decodes;
use crate::key_management::sig_verifies;

verus! {

/// The access-control layer: a registry of username-to-public-key bindings
/// plus the key manager it delegates signature checks to.
pub struct AccessControl {
    start_registry: StringHashMap<Vec<u8>>,
    key_manager: KeyManager,
}

impl AccessControl {
    /// The bindings as a map from username to public-key bytes.
    pub closed spec fn registry(&self) -> Map<Seq<char>, Seq<u8>> {
        self.start_registry@.map_values(|v: Vec<u8>| v@)
    }

    /// An access-control layer with no bindings.
    pub fn new() -> (ac: Self)
        ensures
            ac.registry() == Map::<Seq<char>, Seq<u8>>::empty(),
    {
        let ac = Self { start_registry: StringHashMap::new(), key_manager: KeyManager::new() };
        proof {
            assert(ac.registry() =~= Map::<Seq<char>, Seq<u8>>::empty());
        }
        ac
    }

    /// Binds the identity's username to its public key, overwriting any
    /// earlier binding for that username.  The secret key is not stored.
    pub fn register_user(&mut self, identity: &Identity)
        ensures
            final(self).registry() == old(self).registry().insert(
                identity.username@,
                identity.public_key@,
            ),
    {
        self.start_registry.insert(identity.username.clone(), identity.public_key.clone());
        proof {
            assert(self.registry() =~= old(self).registry().insert(
                identity.username@,
                identity.public_key@,
            ));
        }
    }

    /// Cosmetic marker with no enforcement: any registered user may attempt
    /// verification whether or not this was called.  Changes nothing.
    pub fn grant_admin(&mut self, username: &str)
        ensures
            *final(self) == *old(self),
    {
        let _ = username;
    }

    /// Adjudicates a challenge-response attempt: access is granted exactly
    /// when the username is registered, its stored key and the submitted
    /// signature are well-formed, and the signature validates the command
    /// bytes under the stored key.  In every other case the result is
    /// `false`, never a fault.
    pub fn verify_command(&self, username: &str, command: &[u8], signature: &[u8]) -> (granted:
        bool)
        ensures
            granted == (self.registry().contains_key(username@) && self.registry()[username@].len()
                == PUBLIC_KEY_LEN && sig_decodes(signature@) && sig_verifies(
                signature@,
                command@,
                self.registry()[username@],
            )),
    {
        match self.start_registry.get(username) {
            Some(pk) => self.key_manager.verify_signature(command, signature, pk.as_slice()),
            None => false,
        }
    }

    /// Looks the username's public key up; absent when unknown.
    pub fn get_public_key(&self, username: &str) -> (pk: Option<&Vec<u8>>)
        ensures
            match pk {
                Some(pk) => self.registry().contains_key(username@) && pk@
                    == self.registry()[username@],
                None => !self.registry().contains_key(username@),
            },
    {
        self.start_registry.get(username)
    }
}

} // verus!

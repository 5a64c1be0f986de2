//! A participant: one user's rotating identity and at most one group.
//!
//! The view tracks what the orchestration layer depends on: the identity
//! string, whether a credential is currently held (it is consumed by building
//! a key announcement and restored by a key rotation), and whether the
//! participant holds a group.

use vstd::prelude::*;

use openmls::prelude::CredentialWithKey;
use openmls::prelude::KeyPackage;
use openmls::prelude::KeyPackageIn;
use openmls::prelude::MlsMessageOut;
use openmls::prelude::ProtocolMessage;
use openmls::prelude::Welcome;
use openmls_basic_credential::SignatureKeyPair;
use openmls_rust_crypto::OpenMlsRustCrypto;

use crate::errors::ApplicationError;
use crate::group::Group;
use crate::mls;
use crate::mls::ProcessedContent;

verus! {

/// The participant state the contracts speak about.
#[verifier::ext_equal]
pub struct UserView {
    pub id: Seq<char>,
    pub has_credential: bool,
    pub has_group: bool,
}

/// One user of the chat: an identity, its current key material and at most
/// one group session.
pub struct User {
    id: String,
    provider: OpenMlsRustCrypto,
    credential_with_key: Option<CredentialWithKey>,
    signer: SignatureKeyPair,
    group: Option<Group>,
}

impl View for User {
    type V = UserView;

    closed spec fn view(&self) -> UserView {
        UserView {
            id: self.id@,
            has_credential: self.credential_with_key is Some,
            has_group: self.group is Some,
        }
    }
}

impl User {
    /// Builds a participant: generates an identity credential with its
    /// signing key pair and initiates a fresh single-member group with it.
    /// The credential stays held for the key announcement; the signing key
    /// pair is the one live pair of this identity, and every group the
    /// participant drives was built from it. Fails only on a provider
    /// failure.
    pub fn build(id: String) -> (r: Result<User, ApplicationError>)
        ensures
            r is Ok ==> r->Ok_0@ == (UserView { id: id@, has_credential: true, has_group: true }),
            r is Err ==> r->Err_0 == ApplicationError::MlsKeyStoreError || r->Err_0
                == ApplicationError::CryptoError,
    {
        let provider = mls::new_provider();
        let id_bytes = id.as_str().as_bytes_vec();
        let (credential_with_key, signer) = match Self::generate_credential(&provider, id_bytes) {
            Ok(generated) => generated,
            Err(err) => {
                return Err(err);
            },
        };

        let mut user = User {
            id,
            provider,
            credential_with_key: Some(credential_with_key),
            signer,
            group: None,
        };

        if let Err(err) = user.generate_group() {
            return Err(err);
        }

        Ok(user)
    }

    /// Generates a basic credential bound to a fresh signature key pair and
    /// stores the key pair in the provider's key store. Fails only when the
    /// key store rejects the insertion.
    fn generate_credential(provider: &OpenMlsRustCrypto, identity: Vec<u8>) -> (r: Result<
        (CredentialWithKey, SignatureKeyPair),
        ApplicationError,
    >)
        ensures
            r is Err ==> r->Err_0 == ApplicationError::MlsKeyStoreError,
    {
        let credential = mls::basic_credential(identity);
        let signature_keys = mls::fresh_signature_keypair();
        if let Err(err) = mls::store_signature_keypair(provider, &signature_keys) {
            return Err(err);
        }
        let credential_with_key = mls::credential_with_key(credential, &signature_keys);
        Ok((credential_with_key, signature_keys))
    }

    /// Adds the announced identity to the group. Returns the commit to send
    /// to existing members and the welcome for the new member. Fails with
    /// `GroupDNE` without a group and `AddMemberError` when the announcement
    /// fails validation or the provider's add step fails.
    pub fn add_member(&mut self, key_package: KeyPackageIn) -> (r: Result<
        (MlsMessageOut, MlsMessageOut),
        ApplicationError,
    >)
        ensures
            final(self)@ == old(self)@,
            !old(self)@.has_group ==> r == Err::<
                (MlsMessageOut, MlsMessageOut),
                ApplicationError,
            >(ApplicationError::GroupDNE),
            r is Err ==> r->Err_0 == ApplicationError::GroupDNE || r->Err_0
                == ApplicationError::AddMemberError,
            old(self)@.has_group && r is Err ==> r->Err_0 == ApplicationError::AddMemberError,
    {
        match &mut self.group {
            Some(group) => group.add_member(&self.provider, &self.signer, key_package),
            None => Err(ApplicationError::GroupDNE),
        }
    }

    /// Encrypts a plaintext message under the current key material. Fails
    /// with `GroupDNE` exactly when no group is held, and with
    /// `EncryptionFailed` exactly when the provider cannot encrypt.
    pub fn encrypt_message(&mut self, msg: &str) -> (r: Result<MlsMessageOut, ApplicationError>)
        ensures
            final(self)@ == old(self)@,
            !old(self)@.has_group ==> r == Err::<MlsMessageOut, ApplicationError>(
                ApplicationError::GroupDNE,
            ),
            old(self)@.has_group && r is Err ==> r->Err_0 == ApplicationError::EncryptionFailed,
            r is Err ==> r->Err_0 == ApplicationError::GroupDNE || r->Err_0
                == ApplicationError::EncryptionFailed,
    {
        match &mut self.group {
            Some(group) => group.create_message(&self.provider, &self.signer, msg),
            None => Err(ApplicationError::GroupDNE),
        }
    }

    /// Builds the user's key announcement from their current credential,
    /// consuming it; a later key rotation restores one. Fails with
    /// `CryptoError` only on a provider failure.
    pub fn generate_key_package(&mut self) -> (r: Result<KeyPackage, ApplicationError>)
        requires
            old(self)@.has_credential,
        ensures
            final(self)@ == (UserView { has_credential: false, ..old(self)@ }),
            r is Err ==> r->Err_0 == ApplicationError::CryptoError,
    {
        let credential = self.credential_with_key.take().unwrap();
        match mls::build_key_package(&self.provider, &self.signer, credential) {
            Some(key_package) => Ok(key_package),
            None => Err(ApplicationError::CryptoError),
        }
    }

    /// Initiates a fresh single-member group from the current credential,
    /// which is kept. Fails with `CryptoError` only on a provider failure.
    pub fn generate_group(&mut self) -> (r: Result<(), ApplicationError>)
        requires
            old(self)@.has_credential,
        ensures
            r is Ok ==> final(self)@ == (UserView { has_group: true, ..old(self)@ }),
            r is Err ==> final(self)@ == old(self)@ && r->Err_0 == ApplicationError::CryptoError,
    {
        let credential = match &self.credential_with_key {
            Some(credential) => credential.clone(),
            None => {
                proof {
                    assert(false);
                }
                unreached()
            },
        };
        match Group::build_new(&self.provider, &self.signer, credential) {
            Ok(group) => {
                self.group = Some(group);
                Ok(())
            },
            Err(err) => Err(err),
        }
    }

    /// True exactly when the user currently holds a credential from which a
    /// key announcement can be built.
    pub fn has_credential(&self) -> (r: bool)
        ensures
            r == self@.has_credential,
    {
        match &self.credential_with_key {
            Some(_) => true,
            None => false,
        }
    }

    /// True exactly when the user holds a group.
    pub fn has_group(&self) -> (r: bool)
        ensures
            r == self@.has_group,
    {
        match &self.group {
            Some(_) => true,
            None => false,
        }
    }

    /// The user's identity string.
    pub fn get_id(&self) -> (r: &String)
        ensures
            r@ == self@.id,
    {
        &self.id
    }

    /// Replaces the user's group with one derived from a welcome. Fails with
    /// `KeyPackageDNE` when the welcome references key material the provider
    /// does not hold; the user is unchanged then.
    pub fn join_group(&mut self, welcome: Welcome) -> (r: Result<(), ApplicationError>)
        ensures
            r is Ok ==> final(self)@ == (UserView { has_group: true, ..old(self)@ }),
            r is Err ==> final(self)@ == old(self)@ && r->Err_0 == ApplicationError::KeyPackageDNE,
    {
        if let Ok(group) = Group::build_join(&self.provider, welcome) {
            self.group = Some(group);
            Ok(())
        } else {
            Err(ApplicationError::KeyPackageDNE)
        }
    }

    /// Applies a received protocol message to the group. Returns the
    /// plaintext for an application message; a membership commit is merged
    /// into the group as a side effect and yields `None`, as does reserved
    /// management content. Fails with `GroupDNE` without a group and
    /// `ProcessMessageError` when the provider rejects the message or a
    /// commit cannot be merged.
    pub fn process_message(&mut self, msg: ProtocolMessage) -> (r: Result<
        Option<Vec<u8>>,
        ApplicationError,
    >)
        ensures
            final(self)@ == old(self)@,
            !old(self)@.has_group ==> r == Err::<Option<Vec<u8>>, ApplicationError>(
                ApplicationError::GroupDNE,
            ),
            old(self)@.has_group && r is Err ==> r->Err_0
                == ApplicationError::ProcessMessageError,
            r is Err ==> r->Err_0 == ApplicationError::GroupDNE || r->Err_0
                == ApplicationError::ProcessMessageError,
    {
        match &mut self.group {
            Some(group) => {
                let processed = match group.process_message(&self.provider, msg) {
                    Ok(processed) => processed,
                    Err(err) => {
                        return Err(err);
                    },
                };
                match processed {
                    ProcessedContent::Application(app_msg) => Ok(Some(app_msg)),
                    ProcessedContent::Commit(commit) => {
                        match group.merge_commit(&self.provider, commit) {
                            Ok(_) => Ok(None),
                            Err(err) => Err(err),
                        }
                    },
                    ProcessedContent::Other => Ok(None),
                }
            },
            None => Err(ApplicationError::GroupDNE),
        }
    }

    /// Rotates the user's key material: any pending membership change is
    /// folded into the group, fresh leaf key material is committed, and the
    /// resulting rotation commit must be broadcast by the caller. The
    /// announcement credential is replenished for the same signing key pair:
    /// the pair stays the identity's one live pair, since the group's leaf
    /// was built from it and peers verify commits against that leaf. Without
    /// a group the rotation fails with `GroupDNE` (the credential is
    /// replenished regardless).
    pub fn update_keys(&mut self) -> (r: Result<MlsMessageOut, ApplicationError>)
        ensures
            final(self)@.id == old(self)@.id,
            final(self)@.has_group == old(self)@.has_group,
            final(self)@.has_credential,
            !old(self)@.has_group ==> r == Err::<MlsMessageOut, ApplicationError>(
                ApplicationError::GroupDNE,
            ),
            old(self)@.has_group && r is Err ==> r->Err_0 == ApplicationError::MlsKeyStoreError
                || r->Err_0 == ApplicationError::KeyUpdateError,
            r is Err ==> r->Err_0 == ApplicationError::MlsKeyStoreError || r->Err_0
                == ApplicationError::KeyUpdateError || r->Err_0 == ApplicationError::GroupDNE,
    {
        let id_bytes = self.id.as_str().as_bytes_vec();
        let credential = mls::basic_credential(id_bytes);
        let credential_with_key = mls::credential_with_key(credential, &self.signer);
        self.credential_with_key = Some(credential_with_key);

        match &mut self.group {
            Some(group) => group.update_keys(&self.provider, &self.signer),
            None => Err(ApplicationError::GroupDNE),
        }
    }
}

} // verus!

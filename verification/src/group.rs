//! A session's handle to one protocol group.
//!
//! `Group` wraps exactly one provider group object and exposes the operations
//! the dispatcher needs, each mapped to a fixed error of the library's own
//! taxonomy. The provider is passed in explicitly by the owning participant;
//! nothing here is process-global.

use vstd::prelude::*;

use openmls::prelude::KeyPackageIn;
use openmls::prelude::MlsGroup;
use openmls::prelude::MlsMessageOut;
use openmls::prelude::ProtocolMessage;
use openmls::prelude::StagedCommit;
use openmls_basic_credential::SignatureKeyPair;
use openmls_rust_crypto::OpenMlsRustCrypto;

use crate::errors::ApplicationError;
use crate::mls;
use crate::mls::ProcessedContent;

verus! {

/// One group's membership state, delegated to the protocol provider.
pub struct Group {
    group: MlsGroup,
}

impl Group {
    /// Creates a fresh group with the caller as its only member. Fails with
    /// `CryptoError` only on a provider failure.
    pub fn build_new(
        provider: &OpenMlsRustCrypto,
        signer: &SignatureKeyPair,
        credential: openmls::prelude::CredentialWithKey,
    ) -> (r: Result<Group, ApplicationError>)
        ensures
            r is Err ==> r->Err_0 == ApplicationError::CryptoError,
    {
        match mls::new_group(provider, signer, credential) {
            Some(group) => Ok(Group { group }),
            None => Err(ApplicationError::CryptoError),
        }
    }

    /// Derives a group from a welcome. Fails with `KeyPackageDNE` when the
    /// welcome references key material the provider does not hold.
    pub fn build_join(provider: &OpenMlsRustCrypto, welcome: openmls::prelude::Welcome) -> (r:
        Result<Group, ApplicationError>)
        ensures
            r is Err ==> r->Err_0 == ApplicationError::KeyPackageDNE,
    {
        match mls::group_from_welcome(provider, welcome) {
            Some(group) => Ok(Group { group }),
            None => Err(ApplicationError::KeyPackageDNE),
        }
    }

    /// Validates an announced key package and produces the pair (commit for
    /// existing members, welcome for the new member). The announcement's
    /// canonical encoding is first held against the admissibility walk —
    /// refusing key material the provider would abort on rather than reject —
    /// and only then validated and added. Fails with `AddMemberError` when
    /// admission, validation or the provider's add step fails.
    pub fn add_member(
        &mut self,
        provider: &OpenMlsRustCrypto,
        signer: &SignatureKeyPair,
        key_package: KeyPackageIn,
    ) -> (r: Result<(MlsMessageOut, MlsMessageOut), ApplicationError>)
        ensures
            r is Err ==> r->Err_0 == ApplicationError::AddMemberError,
    {
        let encoding = match mls::serialize_key_package_in(&key_package) {
            Some(encoding) => encoding,
            None => {
                return Err(ApplicationError::AddMemberError);
            },
        };
        if !mls::announcement_admissible(&encoding) {
            return Err(ApplicationError::AddMemberError);
        }
        let Some(key_package) = mls::validate_key_package(key_package) else {
            return Err(ApplicationError::AddMemberError);
        };
        match mls::add_members(provider, &mut self.group, signer, key_package) {
            Some(artifacts) => Ok(artifacts),
            None => Err(ApplicationError::AddMemberError),
        }
    }

    /// Encrypts an application message under the group's current key
    /// material. Fails with `EncryptionFailed` when the provider cannot
    /// produce the message.
    pub fn create_message(
        &mut self,
        provider: &OpenMlsRustCrypto,
        signer: &SignatureKeyPair,
        msg: &str,
    ) -> (r: Result<MlsMessageOut, ApplicationError>)
        ensures
            r is Err ==> r->Err_0 == ApplicationError::EncryptionFailed,
    {
        match mls::create_application_message(provider, &mut self.group, signer, msg) {
            Some(message) => Ok(message),
            None => Err(ApplicationError::EncryptionFailed),
        }
    }

    /// Merges an inspected incoming commit, such as a member being added to
    /// or removed from the group.
    pub fn merge_commit(&mut self, provider: &OpenMlsRustCrypto, commit: StagedCommit) -> (r:
        Result<(), ApplicationError>)
        ensures
            r is Err ==> r->Err_0 == ApplicationError::ProcessMessageError,
    {
        mls::merge_staged_commit(provider, &mut self.group, commit)
    }

    /// Validates, and when encrypted decrypts, one inbound protocol message.
    pub fn process_message(&mut self, provider: &OpenMlsRustCrypto, msg: ProtocolMessage) -> (r:
        Result<ProcessedContent, ApplicationError>)
        ensures
            r is Err ==> r->Err_0 == ApplicationError::ProcessMessageError,
    {
        mls::process_group_message(provider, &mut self.group, msg)
    }

    /// Produces the commit that removes the member at `member_index`. A
    /// failed removal is a failed membership change and is reported with the
    /// same variant as a failed add.
    pub fn remove_member(
        &mut self,
        provider: &OpenMlsRustCrypto,
        signer: &SignatureKeyPair,
        member_index: u32,
    ) -> (r: Result<MlsMessageOut, ApplicationError>)
        ensures
            r is Err ==> r->Err_0 == ApplicationError::AddMemberError,
    {
        match mls::remove_members(provider, &mut self.group, signer, member_index) {
            Some(commit) => Ok(commit),
            None => Err(ApplicationError::AddMemberError),
        }
    }

    /// Folds any pending membership change into the group, then produces the
    /// commit that rotates the caller's key material. Fails with
    /// `MlsKeyStoreError` when the pending merge fails and with
    /// `KeyUpdateError` when the rotation itself fails.
    pub fn update_keys(&mut self, provider: &OpenMlsRustCrypto, signer: &SignatureKeyPair) -> (r:
        Result<MlsMessageOut, ApplicationError>)
        ensures
            r is Err ==> r->Err_0 == ApplicationError::MlsKeyStoreError || r->Err_0
                == ApplicationError::KeyUpdateError,
    {
        if let Err(err) = mls::merge_pending_commit(provider, &mut self.group) {
            return Err(err);
        }
        match mls::self_update(provider, &mut self.group, signer) {
            Some(message) => Ok(message),
            None => Err(ApplicationError::KeyUpdateError),
        }
    }
}

} // verus!

//! The trusted boundary to the MLS protocol provider.
//!
//! Everything cryptographic — key schedules, the ratchet tree, AEAD — lives in
//! the `openmls` crates and is consumed here as an opaque capability. Each
//! wrapper holds exactly one outside call; its contract states only what that
//! call's source or documentation shows. The rest of the library is verified
//! against these contracts.

use vstd::prelude::*;

use openmls::messages::group_info::VerifiableGroupInfo;
use openmls::prelude::Credential;
use openmls::prelude::CredentialType;
use openmls::prelude::CredentialWithKey;
use openmls::prelude::Ciphersuite;
use openmls::prelude::CryptoConfig;
use openmls::prelude::KeyPackage;
use openmls::prelude::KeyPackageIn;
use openmls::prelude::LeafNodeIndex;
use openmls::prelude::MlsGroup;
use openmls::prelude::MlsGroupConfig;
use openmls::prelude::MlsMessageIn;
use openmls::prelude::MlsMessageInBody;
use openmls::prelude::MlsMessageOut;
use openmls::prelude::ProcessedMessageContent;
use openmls::prelude::ProtocolMessage;
use openmls::prelude::ProtocolVersion;
use openmls::prelude::StagedCommit;
use openmls::prelude::TlsDeserializeTrait;
use openmls::prelude::TlsSerializeTrait;
use openmls::prelude::Welcome;
use openmls_basic_credential::SignatureKeyPair;
use openmls_rust_crypto::OpenMlsRustCrypto;
use openmls_rust_crypto::RustCrypto;
use openmls_traits::OpenMlsCryptoProvider;

use crate::errors::ApplicationError;

verus! {

#[verifier::external_type_specification]
#[verifier::external_body]
pub struct ExOpenMlsRustCrypto(OpenMlsRustCrypto);

#[verifier::external_type_specification]
#[verifier::external_body]
pub struct ExSignatureKeyPair(SignatureKeyPair);

#[verifier::external_type_specification]
#[verifier::external_body]
pub struct ExCredential(Credential);

#[verifier::external_type_specification]
#[verifier::external_body]
pub struct ExCredentialWithKey(CredentialWithKey);

#[verifier::external_type_specification]
#[verifier::external_body]
pub struct ExKeyPackage(KeyPackage);

#[verifier::external_type_specification]
#[verifier::external_body]
pub struct ExKeyPackageIn(KeyPackageIn);

#[verifier::external_type_specification]
#[verifier::external_body]
pub struct ExWelcome(Welcome);

#[verifier::external_type_specification]
#[verifier::external_body]
pub struct ExMlsGroup(MlsGroup);

#[verifier::external_type_specification]
#[verifier::external_body]
pub struct ExMlsMessageOut(MlsMessageOut);

#[verifier::external_type_specification]
#[verifier::external_body]
pub struct ExProtocolMessage(ProtocolMessage);

#[verifier::external_type_specification]
#[verifier::external_body]
pub struct ExStagedCommit(StagedCommit);

#[verifier::external_type_specification]
#[verifier::external_body]
pub struct ExVerifiableGroupInfo(VerifiableGroupInfo);

/// The closed set of protocol operations an inbound frame can imply, as the
/// shape of a decoded protocol envelope.
pub enum Envelope {
    /// Lets a newly added member derive the group's state.
    Welcome(Welcome),
    /// A member's published key material; a request to be added.
    KeyAnnouncement(KeyPackageIn),
    /// Reserved group metadata; processed as a no-op.
    GroupInfo(VerifiableGroupInfo),
    /// An encrypted handshake or application message.
    Private(ProtocolMessage),
    /// A plaintext handshake or application message.
    Public(ProtocolMessage),
}

/// Which of the five envelope shapes a frame decoded to; the part of a
/// decoded envelope the dispatcher's contracts speak about.
#[derive(Debug, PartialEq, Eq, Structural, Clone, Copy)]
pub enum EnvelopeKind {
    Welcome,
    KeyAnnouncement,
    GroupInfo,
    Private,
    Public,
}

impl Envelope {
    /// The shape of this envelope, with the protocol payloads dropped.
    pub open spec fn kind(self) -> EnvelopeKind {
        match self {
            Envelope::Welcome(_) => EnvelopeKind::Welcome,
            Envelope::KeyAnnouncement(_) => EnvelopeKind::KeyAnnouncement,
            Envelope::GroupInfo(_) => EnvelopeKind::GroupInfo,
            Envelope::Private(_) => EnvelopeKind::Private,
            Envelope::Public(_) => EnvelopeKind::Public,
        }
    }
}

/// What decoding a byte sequence as a protocol envelope yields. TLS decoding
/// is a function of the bytes alone: `Some(k)` when the bytes decode to an
/// envelope of kind `k`, `None` when they do not decode.
pub uninterp spec fn envelope_kind(bytes: Seq<u8>) -> Option<EnvelopeKind>;

/// Whether a byte sequence decodes as a bare key announcement, the fallback
/// wire shape used by first-contact joins. Also a function of the bytes alone.
pub uninterp spec fn announcement_decodes(bytes: Seq<u8>) -> bool;

/// What processing one inbound protocol message against a group yields.
pub enum ProcessedContent {
    /// A decrypted application payload, to be surfaced to the caller.
    Application(Vec<u8>),
    /// A staged membership or key-material change, to be merged.
    Commit(StagedCommit),
    /// Management content this system never sends; ignored.
    Other,
}

/// Relies on `MlsMessageIn::tls_deserialize` and `MlsMessageIn::extract`:
/// deserialization depends on the bytes alone, and the five body variants are
/// mapped one to one onto `Envelope`.
#[verifier::external_body]
pub fn decode_envelope(bytes: &Vec<u8>) -> (r: Option<Envelope>)
    ensures
        match r {
            Some(envelope) => envelope_kind(bytes@) == Some(envelope.kind()),
            None => envelope_kind(bytes@) is None,
        },
{
    let msg = MlsMessageIn::tls_deserialize(&mut bytes.as_slice()).ok()?;
    Some(
        match msg.extract() {
            MlsMessageInBody::Welcome(welcome) => Envelope::Welcome(welcome),
            MlsMessageInBody::KeyPackage(key_package) => Envelope::KeyAnnouncement(key_package),
            MlsMessageInBody::GroupInfo(group_info) => Envelope::GroupInfo(group_info),
            MlsMessageInBody::PrivateMessage(message) => Envelope::Private(message.into()),
            MlsMessageInBody::PublicMessage(message) => Envelope::Public(message.into()),
        },
    )
}

/// Relies on `KeyPackageIn::tls_deserialize`: deserialization depends on the
/// bytes alone.
#[verifier::external_body]
pub fn decode_key_announcement(bytes: &Vec<u8>) -> (r: Option<KeyPackageIn>)
    ensures
        r is Some <==> announcement_decodes(bytes@),
{
    KeyPackageIn::tls_deserialize(&mut bytes.as_slice()).ok()
}

/// Relies on `OpenMlsRustCrypto::default`: a fresh provider with an empty key
/// store.
#[verifier::external_body]
pub fn new_provider() -> OpenMlsRustCrypto {
    OpenMlsRustCrypto::default()
}

/// Relies on `Credential::new`: for `CredentialType::Basic` it always
/// succeeds (its only error is an unsupported credential type).
#[verifier::external_body]
pub fn basic_credential(identity: Vec<u8>) -> Credential {
    Credential::new(identity, CredentialType::Basic)
        .expect("a basic credential is a supported credential type")
}

/// Relies on `SignatureKeyPair::new`: for the Ed25519 scheme of this
/// library's fixed ciphersuite, generation draws from the operating system's
/// randomness and has no failing path.
#[verifier::external_body]
pub fn fresh_signature_keypair() -> SignatureKeyPair {
    SignatureKeyPair::new(
        Ciphersuite::MLS_128_DHKEMX25519_CHACHA20POLY1305_SHA256_Ed25519.signature_algorithm(),
    ).expect("Ed25519 key generation has no failing path")
}

/// Relies on `SignatureKeyPair::store`, which serializes the key pair into
/// the provider's key store; it fails only when serialization fails.
#[verifier::external_body]
pub fn store_signature_keypair(provider: &OpenMlsRustCrypto, keys: &SignatureKeyPair) -> (r:
    Result<(), ApplicationError>)
    ensures
        r is Err ==> r->Err_0 == ApplicationError::MlsKeyStoreError,
{
    keys.store(provider.key_store()).map_err(|_| ApplicationError::MlsKeyStoreError)
}

/// Relies on the `CredentialWithKey` constructor and
/// `SignatureKeyPair::public`: pairs a credential with the key pair's public
/// key.
#[verifier::external_body]
pub fn credential_with_key(credential: Credential, keys: &SignatureKeyPair) -> CredentialWithKey {
    CredentialWithKey { credential: credential.into(), signature_key: keys.public().into() }
}

/// Relies on `<CredentialWithKey as Clone>::clone` (a derived field-wise
/// clone).
pub assume_specification[ <CredentialWithKey as Clone>::clone ](c: &CredentialWithKey) -> (r:
    CredentialWithKey)
;

/// Relies on `KeyPackage::builder().build(..)` under this library's fixed
/// ciphersuite: produces and stores a fresh key package, failing only on a
/// provider failure.
#[verifier::external_body]
pub fn build_key_package(
    provider: &OpenMlsRustCrypto,
    signer: &SignatureKeyPair,
    credential: CredentialWithKey,
) -> Option<KeyPackage> {
    KeyPackage::builder()
        .build(
            CryptoConfig::with_default_version(
                Ciphersuite::MLS_128_DHKEMX25519_CHACHA20POLY1305_SHA256_Ed25519,
            ),
            provider,
            signer,
            credential,
        )
        .ok()
}

/// Relies on `MlsGroup::new` with the ratchet-tree extension enabled and this
/// library's fixed ciphersuite: a new group with the creator as only member,
/// failing only on a provider failure.
#[verifier::external_body]
pub fn new_group(
    provider: &OpenMlsRustCrypto,
    signer: &SignatureKeyPair,
    credential: CredentialWithKey,
) -> Option<MlsGroup> {
    let config = MlsGroupConfig::builder()
        .use_ratchet_tree_extension(true)
        .crypto_config(
            CryptoConfig::with_default_version(
                Ciphersuite::MLS_128_DHKEMX25519_CHACHA20POLY1305_SHA256_Ed25519,
            ),
        )
        .build();
    MlsGroup::new(provider, signer, &config, credential).ok()
}

/// Relies on `MlsGroup::new_from_welcome`: derives a group from a welcome,
/// returning `None` when the welcome references key material the provider's
/// key store does not hold (or the welcome cannot be processed). Caveat: the
/// group info inside a welcome is signature-checked through the provider's
/// Ed25519 backend, which aborts on an out-of-range trailing scalar byte
/// instead of erring; the signature sits inside an encrypted, variable
/// structure this library cannot inspect without re-implementing the
/// protocol's framing, so a welcome crafted for this participant's announced
/// init key can still abort the process here.
#[verifier::external_body]
pub fn group_from_welcome(provider: &OpenMlsRustCrypto, welcome: Welcome) -> Option<MlsGroup> {
    let config = MlsGroupConfig::builder().use_ratchet_tree_extension(true).build();
    MlsGroup::new_from_welcome(provider, &config, welcome, None).ok()
}

/// Reads one variable-length length prefix at `pos` in `bytes`: the two top
/// bits of the first byte give the width of the prefix, the rest begin the
/// length. Returns the content length and the position just after the
/// prefix; `None` when the prefix is cut short, wider than the format
/// allows, or announces more content than the buffer holds.
fn read_vl(bytes: &Vec<u8>, pos: usize) -> (r: Option<(usize, usize)>)
    ensures
        match r {
            Some(pair) => pos < pair.1 && pair.1 + pair.0 <= bytes@.len(),
            None => true,
        },
{
    if pos >= bytes.len() {
        return None;
    }
    let head = bytes[pos];
    let prefix = head >> 6;
    let low = (head & 0x3f) as usize;
    if prefix == 0 {
        let start = pos + 1;
        if low > bytes.len() - start {
            None
        } else {
            Some((low, start))
        }
    } else if prefix == 1 {
        if bytes.len() - pos < 2 {
            return None;
        }
        let value = low * 256 + bytes[pos + 1] as usize;
        let start = pos + 2;
        if value > bytes.len() - start {
            None
        } else {
            Some((value, start))
        }
    } else if prefix == 2 {
        if bytes.len() - pos < 4 {
            return None;
        }
        let value = ((low * 256 + bytes[pos + 1] as usize) * 256 + bytes[pos + 2] as usize) * 256
            + bytes[pos + 3] as usize;
        let start = pos + 4;
        if value > bytes.len() - start {
            None
        } else {
            Some((value, start))
        }
    } else {
        None
    }
}

/// The position just past a variable-length field starting at `pos`.
fn skip_vl(bytes: &Vec<u8>, pos: usize) -> (r: Option<usize>)
    ensures
        match r {
            Some(next) => pos < next <= bytes@.len(),
            None => true,
        },
{
    let total = bytes.len();
    match read_vl(bytes, pos) {
        Some(pair) => {
            proof {
                assert(pair.1 + pair.0 <= total);
            }
            Some(pair.1 + pair.0)
        },
        None => None,
    }
}

/// Walks one canonically encoded key package beginning at `start` and
/// admits it only when the provider can act on it without aborting: its HPKE
/// init key and leaf encryption key must have the 32-byte length of this
/// library's ciphersuite (the provider seals welcome secrets and path
/// secrets to them without checking, and aborts on another length), and each
/// 64-byte signature — the leaf node's and the package's own — must carry a
/// trailing scalar byte with its top three bits clear (the provider's
/// Ed25519 backend aborts on others instead of reporting them invalid).
/// Returns the position just past the package; `None` refuses it, as it does
/// anything that does not walk as a key package.
fn check_key_package_at(bytes: &Vec<u8>, start: usize) -> (r: Option<usize>)
    ensures
        match r {
            Some(end) => start < end <= bytes@.len(),
            None => true,
        },
{
    // protocol version and ciphersuite
    if start >= bytes.len() || bytes.len() - start < 4 {
        return None;
    }
    let mut pos: usize = start + 4;
    // init key: the KEM key a welcome is sealed to
    let (init_len, init_start) = match read_vl(bytes, pos) {
        Some(pair) => pair,
        None => {
            return None;
        },
    };
    if init_len != 32 {
        return None;
    }
    pos = init_start + init_len;
    // leaf node: the encryption key path secrets are sealed to, then the
    // signature key
    let (enc_len, enc_start) = match read_vl(bytes, pos) {
        Some(pair) => pair,
        None => {
            return None;
        },
    };
    if enc_len != 32 {
        return None;
    }
    pos = enc_start + enc_len;
    pos = match skip_vl(bytes, pos) {
        Some(next) => next,
        None => {
            return None;
        },
    };
    // credential: type tag, then the body
    if bytes.len() - pos < 2 {
        return None;
    }
    pos = pos + 2;
    pos = match skip_vl(bytes, pos) {
        Some(next) => next,
        None => {
            return None;
        },
    };
    // capabilities: versions, ciphersuites, extensions, proposals, credentials
    let mut field: usize = 0;
    while field < 5
        invariant
            start < pos <= bytes@.len(),
        decreases 5 - field,
    {
        pos = match skip_vl(bytes, pos) {
            Some(next) => next,
            None => {
                return None;
            },
        };
        field = field + 1;
    }
    // leaf node source: a lifetime for an announcement, nothing for an
    // update, a parent hash for a commit
    if pos >= bytes.len() {
        return None;
    }
    let source = bytes[pos];
    pos = pos + 1;
    if source == 1 {
        if bytes.len() - pos < 16 {
            return None;
        }
        pos = pos + 16;
    } else if source == 3 {
        pos = match skip_vl(bytes, pos) {
            Some(next) => next,
            None => {
                return None;
            },
        };
    } else if source != 2 {
        return None;
    }
    // leaf extensions
    pos = match skip_vl(bytes, pos) {
        Some(next) => next,
        None => {
            return None;
        },
    };
    // leaf signature
    let (leaf_sig_len, leaf_sig_start) = match read_vl(bytes, pos) {
        Some(pair) => pair,
        None => {
            return None;
        },
    };
    if leaf_sig_len == 64 && bytes[leaf_sig_start + 63] & 0xe0 != 0 {
        return None;
    }
    pos = leaf_sig_start + leaf_sig_len;
    // package extensions
    pos = match skip_vl(bytes, pos) {
        Some(next) => next,
        None => {
            return None;
        },
    };
    // package signature
    let (sig_len, sig_start) = match read_vl(bytes, pos) {
        Some(pair) => pair,
        None => {
            return None;
        },
    };
    if sig_len == 64 && bytes[sig_start + 63] & 0xe0 != 0 {
        return None;
    }
    Some(sig_start + sig_len)
}

/// Whether a received key announcement may be handed to the provider at all:
/// its canonical encoding must walk as a key package whose HPKE keys have
/// this library's key length and whose signature scalars the provider's
/// backend can parse. Everything else is refused before any provider call,
/// since the provider aborts on such inputs instead of erring.
pub fn announcement_admissible(bytes: &Vec<u8>) -> (r: bool) {
    match check_key_package_at(bytes, 0) {
        Some(_) => true,
        None => false,
    }
}

/// Whether a public (plaintext) protocol message names a group member as its
/// sender. A member's message carries a membership tag the provider checks
/// before parsing any signature; the other sender kinds — external senders,
/// self-adding proposals, external commits — are never produced by this
/// system, and for them the provider would parse attacker-chosen signature
/// bytes with a backend that aborts on an out-of-range scalar. Refusing them
/// keeps every flow of this system intact.
pub fn public_message_from_member(bytes: &Vec<u8>) -> (r: bool) {
    // envelope: protocol version, then the body tag of a public message
    if bytes.len() < 4 {
        return false;
    }
    if !(bytes[2] == 0 && bytes[3] == 1) {
        return false;
    }
    // group id
    let pos = match skip_vl(bytes, 4) {
        Some(next) => next,
        None => {
            return false;
        },
    };
    // epoch
    if bytes.len() - pos < 8 {
        return false;
    }
    let pos = pos + 8;
    // the sender's kind: a member carries its leaf index
    if pos >= bytes.len() {
        return false;
    }
    bytes[pos] == 1
}

/// Relies on `tls_serialize_detached` for `KeyPackageIn`: the canonical
/// encoding of an announcement as received, for the admissibility walk.
#[verifier::external_body]
pub fn serialize_key_package_in(key_package: &KeyPackageIn) -> Option<Vec<u8>> {
    key_package.tls_serialize_detached().ok()
}

/// Relies on `KeyPackageIn::validate`: verifies the signatures, lifetime and
/// protocol version of an announced key package, yielding the validated key
/// package or `None`. The caller must first admit the announcement's
/// canonical encoding through `announcement_admissible`: outside that set
/// the provider's backend aborts on the signature parse instead of erring.
#[verifier::external_body]
pub fn validate_key_package(key_package: KeyPackageIn) -> Option<KeyPackage> {
    key_package.validate(&RustCrypto::default(), ProtocolVersion::default()).ok()
}

/// Relies on `MlsGroup::add_members` with a single key package: on success
/// the pair is (commit for existing members, welcome for the new member) and
/// the group holds the add as its pending commit. The caller must only hand
/// it key packages whose encoding passed `announcement_admissible`: the
/// provider seals the welcome's secrets to the announced init key without
/// checking its length and aborts on a mis-sized one.
#[verifier::external_body]
pub fn add_members(
    provider: &OpenMlsRustCrypto,
    group: &mut MlsGroup,
    signer: &SignatureKeyPair,
    key_package: KeyPackage,
) -> Option<(MlsMessageOut, MlsMessageOut)> {
    group
        .add_members(provider, signer, &[key_package])
        .ok()
        .map(|(commit, welcome, _)| (commit, welcome))
}

/// Relies on `MlsGroup::create_message`: encrypts an application message
/// under the group's current key material.
#[verifier::external_body]
pub fn create_application_message(
    provider: &OpenMlsRustCrypto,
    group: &mut MlsGroup,
    signer: &SignatureKeyPair,
    message: &str,
) -> Option<MlsMessageOut> {
    group.create_message(provider, signer, message.as_bytes()).ok()
}

/// Relies on `MlsGroup::process_message` and `ProcessedMessage::into_content`:
/// validates and (when encrypted) decrypts one inbound protocol message; the
/// three content variants are mapped one to one onto `ProcessedContent`.
/// Caveat: a public (plaintext) message's signature is checked through the
/// provider's Ed25519 backend, which aborts on an out-of-range trailing
/// scalar byte instead of erring. The caller admits public messages through
/// `public_message_from_member` first, so the parse is reached only for
/// member senders, whose messages fail the membership-tag check before it
/// unless they hold the group's keys; a hostile member can still abort the
/// process, as it can through any commit it signs.
#[verifier::external_body]
pub fn process_group_message(
    provider: &OpenMlsRustCrypto,
    group: &mut MlsGroup,
    message: ProtocolMessage,
) -> (r: Result<ProcessedContent, ApplicationError>)
    ensures
        r is Err ==> r->Err_0 == ApplicationError::ProcessMessageError,
{
    match group.process_message(provider, message) {
        Ok(processed) => Ok(
            match processed.into_content() {
                ProcessedMessageContent::ApplicationMessage(application) => {
                    ProcessedContent::Application(application.into_bytes())
                },
                ProcessedMessageContent::StagedCommitMessage(commit) => {
                    ProcessedContent::Commit(*commit)
                },
                _ => ProcessedContent::Other,
            },
        ),
        Err(_) => Err(ApplicationError::ProcessMessageError),
    }
}

/// Relies on `MlsGroup::merge_staged_commit`: merges an inspected commit into
/// the group, advancing its epoch.
#[verifier::external_body]
pub fn merge_staged_commit(
    provider: &OpenMlsRustCrypto,
    group: &mut MlsGroup,
    commit: StagedCommit,
) -> (r: Result<(), ApplicationError>)
    ensures
        r is Err ==> r->Err_0 == ApplicationError::ProcessMessageError,
{
    group.merge_staged_commit(provider, commit).map_err(
        |_| ApplicationError::ProcessMessageError,
    )
}

/// Relies on `MlsGroup::merge_pending_commit`: merges the group's own pending
/// commit if there is one and is a no-op otherwise.
#[verifier::external_body]
pub fn merge_pending_commit(
    provider: &OpenMlsRustCrypto,
    group: &mut MlsGroup,
) -> (r: Result<(), ApplicationError>)
    ensures
        r is Err ==> r->Err_0 == ApplicationError::MlsKeyStoreError,
{
    group.merge_pending_commit(provider).map_err(|_| ApplicationError::MlsKeyStoreError)
}

/// Relies on `MlsGroup::remove_members` with a single leaf index: on success
/// the result is the commit that removes that member. As for `self_update`,
/// path secrets are sealed only to leaf keys of admitted length.
#[verifier::external_body]
pub fn remove_members(
    provider: &OpenMlsRustCrypto,
    group: &mut MlsGroup,
    signer: &SignatureKeyPair,
    member_index: u32,
) -> Option<MlsMessageOut> {
    group
        .remove_members(provider, signer, &[LeafNodeIndex::new(member_index)])
        .ok()
        .map(|(commit, _, _)| commit)
}

/// Relies on `MlsGroup::self_update`: produces the commit that rotates the
/// sender's own key material. Path secrets are sealed to the leaf encryption
/// keys in the tree; every leaf entered the tree through an announcement this
/// library admitted, so each has the key length the provider seals to
/// without checking.
#[verifier::external_body]
pub fn self_update(
    provider: &OpenMlsRustCrypto,
    group: &mut MlsGroup,
    signer: &SignatureKeyPair,
) -> Option<MlsMessageOut> {
    group.self_update(provider, signer).ok().map(|(commit, _, _)| commit)
}

/// Relies on `tls_serialize_detached` for `MlsMessageOut`: the TLS encoding
/// of an outbound message.
#[verifier::external_body]
pub fn serialize_message(message: &MlsMessageOut) -> Option<Vec<u8>> {
    message.tls_serialize_detached().ok()
}

/// Relies on `tls_serialize_detached` for `KeyPackage`: the TLS encoding of a
/// key announcement.
#[verifier::external_body]
pub fn serialize_key_package(key_package: &KeyPackage) -> Option<Vec<u8>> {
    key_package.tls_serialize_detached().ok()
}

} // verus!

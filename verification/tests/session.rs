use mls_chat::errors::ApplicationError;
use mls_chat::user::User;

use openmls::prelude::KeyPackageIn;
use openmls::prelude::MlsMessageIn;
use openmls::prelude::MlsMessageInBody;
use openmls::prelude::ProtocolMessage;
use openmls::prelude::TlsDeserializeTrait;
use openmls::prelude::TlsSerializeTrait;
use openmls::prelude::Welcome;

fn to_protocol_message(bytes: &[u8]) -> ProtocolMessage {
    match MlsMessageIn::tls_deserialize(&mut &bytes[..])
        .expect("the frame should decode as a protocol envelope")
        .extract()
    {
        MlsMessageInBody::PrivateMessage(message) => message.into(),
        MlsMessageInBody::PublicMessage(message) => message.into(),
        other => panic!("expected a protocol message, got {:?}", other),
    }
}

fn extract_welcome(bytes: &[u8]) -> Welcome {
    match MlsMessageIn::tls_deserialize(&mut &bytes[..])
        .expect("the welcome frame should decode as a protocol envelope")
        .extract()
    {
        MlsMessageInBody::Welcome(welcome) => welcome,
        other => panic!("expected a welcome, got {:?}", other),
    }
}

#[test]
fn serialize_key_package() {
    let mut bob = User::build(String::from("bob")).unwrap();
    let key_package = bob.generate_key_package().unwrap();
    let key_package = key_package.tls_serialize_detached();

    assert!(key_package.is_ok(), "Key package returns error: {:?}", key_package);
}

#[test]
fn deserialize_key_package() {
    let mut bob = User::build(String::from("bob")).unwrap();
    let key_package = bob.generate_key_package().unwrap();
    let key_package = key_package.tls_serialize_detached().unwrap();
    let key_package = KeyPackageIn::tls_deserialize(&mut key_package.as_slice());

    assert!(key_package.is_ok(), "Key package returns error: {:?}", key_package);
}

#[test]
fn update_keys() {
    let mut bob = User::build(String::from("bob")).unwrap();
    let _key_package = bob.generate_key_package();
    let update = bob.update_keys();

    assert!(update.is_ok(), "Key update returns error: {:?}", update);
}

#[test]
fn join_from_welcome() {
    let mut bob = User::build(String::from("bob")).unwrap();
    let key_package = KeyPackageIn::tls_deserialize(
        &mut (bob.generate_key_package().unwrap().tls_serialize_detached().unwrap()).as_slice(),
    )
    .unwrap();
    let mut alice = User::build(String::from("alice")).unwrap();
    let res = alice.add_member(key_package);

    assert!(res.is_ok(), "add_member returns error: {:?}", res);

    let (_commit, welcome) = res.unwrap();
    let welcome_bytes = welcome.tls_serialize_detached().unwrap();
    let welcome = MlsMessageIn::tls_deserialize(&mut welcome_bytes.as_slice());

    assert!(welcome.is_ok(), "Welcome::tls_deserialize returns error: {:?}", welcome);

    let welcome = match welcome.unwrap().extract() {
        MlsMessageInBody::Welcome(welcome) => welcome,
        other => panic!("expected a welcome, got {:?}", other),
    };
    let res = bob.join_group(welcome);

    assert!(res.is_ok(), "join_group returns error: {:?}", res);
}

#[test]
fn member_add_then_message_round_trip() {
    // A valid announcement, an add, and a join from the resulting welcome...
    let mut alice = User::build(String::from("alice")).unwrap();
    let mut bob = User::build(String::from("bob")).unwrap();
    let kp_bytes = bob.generate_key_package().unwrap().tls_serialize_detached().unwrap();
    let kp_in = KeyPackageIn::tls_deserialize(&mut kp_bytes.as_slice()).unwrap();
    let (_commit, welcome) = alice.add_member(kp_in).unwrap();
    let welcome_bytes = welcome.tls_serialize_detached().unwrap();
    bob.join_group(extract_welcome(&welcome_bytes)).unwrap();
    assert!(bob.has_group());

    // ... then alice folds the pending add into her group and rotates; bob
    // applies the rotation commit, which surfaces no plaintext.
    let rotation = alice.update_keys().unwrap();
    let rotation_bytes = rotation.tls_serialize_detached().unwrap();
    assert_eq!(bob.process_message(to_protocol_message(&rotation_bytes)).unwrap(), None);

    // Alice merges her own rotation to sit in the same epoch as bob; the
    // fresh rotation produced by that call stays undelivered here.
    let _undelivered = alice.update_keys().unwrap();

    // The round trip: what alice encrypts, the newly added member decrypts
    // byte for byte.
    let message = alice.encrypt_message("hello").unwrap();
    let message_bytes = message.tls_serialize_detached().unwrap();
    let plaintext = bob.process_message(to_protocol_message(&message_bytes)).unwrap();
    assert_eq!(plaintext, Some(b"hello".to_vec()));

    // Membership holds both ways: the new member's messages reach the
    // original member as well.
    let reply = bob.encrypt_message("reply").unwrap();
    let reply_bytes = reply.tls_serialize_detached().unwrap();
    let plaintext = alice.process_message(to_protocol_message(&reply_bytes)).unwrap();
    assert_eq!(plaintext, Some(b"reply".to_vec()));
}

#[test]
fn announcement_with_out_of_range_scalar_is_rejected() {
    // The trailing scalar byte of the package signature is what the
    // provider's backend refuses to even parse; the announcement must be
    // refused as a failed membership change, never crash.
    let mut alice = User::build(String::from("alice")).unwrap();
    let mut bob = User::build(String::from("bob")).unwrap();
    let mut kp_bytes = bob.generate_key_package().unwrap().tls_serialize_detached().unwrap();
    let last = kp_bytes.len() - 1;
    kp_bytes[last] |= 0xe0;
    let kp_in = KeyPackageIn::tls_deserialize(&mut kp_bytes.as_slice()).unwrap();
    let res = alice.add_member(kp_in);
    assert!(matches!(res, Err(ApplicationError::AddMemberError)));
}

#[test]
fn tampered_announcement_is_rejected() {
    // An announcement whose signature bytes were altered decodes but fails
    // validation: the membership change is refused.
    let mut alice = User::build(String::from("alice")).unwrap();
    let mut bob = User::build(String::from("bob")).unwrap();
    let mut kp_bytes = bob.generate_key_package().unwrap().tls_serialize_detached().unwrap();
    let first_signature_byte = kp_bytes.len() - 64;
    kp_bytes[first_signature_byte] ^= 0xff;
    let kp_in = KeyPackageIn::tls_deserialize(&mut kp_bytes.as_slice()).unwrap();
    let res = alice.add_member(kp_in);
    assert!(matches!(res, Err(ApplicationError::AddMemberError)));
}

#[test]
fn join_with_foreign_welcome_fails() {
    // A welcome that references key material the joiner's provider does not
    // hold is rejected as missing key material.
    let mut alice = User::build(String::from("alice")).unwrap();
    let mut bob = User::build(String::from("bob")).unwrap();
    let mut charlie = User::build(String::from("charlie")).unwrap();
    let kp_bytes = bob.generate_key_package().unwrap().tls_serialize_detached().unwrap();
    let kp_in = KeyPackageIn::tls_deserialize(&mut kp_bytes.as_slice()).unwrap();
    let (_commit, welcome) = alice.add_member(kp_in).unwrap();
    let welcome_bytes = welcome.tls_serialize_detached().unwrap();

    let res = charlie.join_group(extract_welcome(&welcome_bytes));
    assert_eq!(res, Err(ApplicationError::KeyPackageDNE));
}

#[test]
fn processing_own_message_fails() {
    // The sender's own ratchet cannot decrypt what it encrypted: processing
    // an own message is a processing failure, not a crash.
    let mut alice = User::build(String::from("alice")).unwrap();
    let message = alice.encrypt_message("to myself").unwrap();
    let message_bytes = message.tls_serialize_detached().unwrap();
    let res = alice.process_message(to_protocol_message(&message_bytes));
    assert_eq!(res, Err(ApplicationError::ProcessMessageError));
}

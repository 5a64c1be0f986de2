use mls_chat::client::Client;
use mls_chat::controller::format_chat_line;
use mls_chat::controller::Controller;
use mls_chat::errors::ApplicationError;
use mls_chat::hub::Hub;
use mls_chat::user::User;

use openmls::prelude::Ciphersuite;
use openmls::prelude::CredentialType;
use openmls::prelude::CryptoConfig;
use openmls::prelude::KeyPackageIn;
use openmls::prelude::MlsGroup;
use openmls::prelude::MlsGroupConfig;
use openmls::prelude::TlsDeserializeTrait;
use openmls::prelude::TlsSerializeTrait;
use openmls_basic_credential::SignatureKeyPair;
use openmls_rust_crypto::OpenMlsRustCrypto;
use openmls_traits::OpenMlsCryptoProvider;

fn controller(id: &str) -> Controller {
    Controller::build(Client::build(), User::build(String::from(id)).unwrap())
}

// Moves one side's queued frames into the hub and fans each out. Outgoing
// frames end in the wire delimiter; protocol bytes may contain that byte
// themselves, so frames are unwrapped at queue boundaries here rather than
// scanned for it.
fn pump(hub: &mut Hub, from: usize, ctrl: &mut Controller) {
    for framed in ctrl.drain_outgoing() {
        let mut frame = framed;
        assert_eq!(frame.pop(), Some(10u8));
        assert!(hub.offer(from, frame));
        assert_eq!(hub.fanout_next(), Some(from));
    }
}

// Hands one connection's pending frames to its dispatcher, dropping what
// cannot be processed (commits for epochs this side has not reached,
// messages from epochs it has left behind) as the shell does.
fn deliver(hub: &mut Hub, to: usize, ctrl: &mut Controller) {
    for frame in hub.drain_conn(to) {
        match ctrl.handle_messages(frame) {
            Ok(()) => {}
            Err(ApplicationError::ProcessMessageError) => {}
            Err(other) => panic!("dispatch failed: {:?}", other),
        }
    }
}

#[test]
fn malformed_frame_yields_invalid_message() {
    let mut ctrl = controller("carol");
    let res = ctrl.handle_messages(vec![7u8, 7, 7]);
    assert_eq!(res, Err(ApplicationError::InvalidMessage));
    assert!(ctrl.log_lines().is_empty());
    assert!(ctrl.drain_outgoing().is_empty());

    let res = ctrl.handle_messages(Vec::new());
    assert_eq!(res, Err(ApplicationError::InvalidMessage));
    assert!(ctrl.log_lines().is_empty());
}

#[test]
fn group_info_frame_is_a_noop() {
    // A group info frame built directly against the protocol provider.
    let provider = OpenMlsRustCrypto::default();
    let ciphersuite = Ciphersuite::MLS_128_DHKEMX25519_CHACHA20POLY1305_SHA256_Ed25519;
    let signer = SignatureKeyPair::new(ciphersuite.signature_algorithm()).unwrap();
    signer.store(provider.key_store()).unwrap();
    let credential =
        openmls::prelude::Credential::new(b"dora".to_vec(), CredentialType::Basic).unwrap();
    let credential_with_key = openmls::prelude::CredentialWithKey {
        credential: credential.into(),
        signature_key: signer.public().into(),
    };
    let config = MlsGroupConfig::builder()
        .use_ratchet_tree_extension(true)
        .crypto_config(CryptoConfig::with_default_version(ciphersuite))
        .build();
    let group = MlsGroup::new(&provider, &signer, &config, credential_with_key).unwrap();
    let frame = group
        .export_group_info(&provider, &signer, true)
        .unwrap()
        .tls_serialize_detached()
        .unwrap();

    // Processing it changes neither the log nor the queue, and succeeds.
    let mut ctrl = controller("erin");
    ctrl.send_chat_msg(String::from("before")).unwrap();
    let queued = ctrl.drain_outgoing().len();
    assert_eq!(queued, 2);
    let log_before = ctrl.log_lines().clone();

    assert_eq!(ctrl.handle_messages(frame), Ok(()));
    assert_eq!(ctrl.log_lines(), &log_before);
    assert!(ctrl.drain_outgoing().is_empty());
}

#[test]
fn announce_key_consumes_the_credential() {
    let mut ctrl = controller("frank");
    assert_eq!(ctrl.announce_key(), Ok(()));
    let frames = ctrl.drain_outgoing();
    assert_eq!(frames.len(), 1);
    assert_eq!(*frames[0].last().unwrap(), 10u8);

    // The credential was consumed and only a rotation restores one.
    assert_eq!(ctrl.announce_key(), Err(ApplicationError::KeyPackageDNE));
}

#[test]
fn send_chat_msg_logs_and_rotates() {
    let mut ctrl = controller("grace");
    assert_eq!(ctrl.send_chat_msg(String::from("hi")), Ok(()));
    let log = ctrl.log_lines();
    assert_eq!(log.len(), 1);
    let line = log[0].as_str();
    assert!(line.starts_with('['), "line should start with a timestamp: {}", line);
    assert!(line.ends_with("] grace: hi"), "line should carry id and text: {}", line);
    assert_eq!(line.len(), "[12:00:00] grace: hi".len());

    // The encrypted line and the mandatory rotation: two frames.
    assert_eq!(ctrl.drain_outgoing().len(), 2);
}

#[test]
fn foreign_welcome_is_refused_and_changes_nothing() {
    // A welcome produced for one pair of users...
    let mut alice = User::build(String::from("alice")).unwrap();
    let mut bob = User::build(String::from("bob")).unwrap();
    let kp_bytes = bob.generate_key_package().unwrap().tls_serialize_detached().unwrap();
    let kp_in = KeyPackageIn::tls_deserialize(&mut kp_bytes.as_slice()).unwrap();
    let (_commit, welcome) = alice.add_member(kp_in).unwrap();
    let welcome_frame = welcome.tls_serialize_detached().unwrap();

    // ... references key material a bystander does not hold: the join is
    // refused, the frame is dropped, and the bystander's state is untouched.
    let mut ctrl = controller("heidi");
    assert_eq!(ctrl.handle_messages(welcome_frame), Err(ApplicationError::KeyPackageDNE));
    assert!(ctrl.log_lines().is_empty());
    assert!(ctrl.drain_outgoing().is_empty());
}

#[test]
fn append_plaintext_renders_exactly_the_payload() {
    let mut ctrl = controller("judy");
    assert_eq!(ctrl.append_plaintext(b"a decrypted line".to_vec()), Ok(()));
    assert_eq!(ctrl.log_lines().last().unwrap().as_str(), "a decrypted line");

    // A payload that is not valid UTF-8 cannot be rendered: exactly the
    // processing-error case, and the log keeps its length.
    assert_eq!(
        ctrl.append_plaintext(vec![0xffu8, 0xfe]),
        Err(ApplicationError::ProcessMessageError)
    );
    assert_eq!(ctrl.log_lines().len(), 1);
}

#[test]
fn key_announcement_triggers_the_add_flow() {
    let mut bob = User::build(String::from("bob")).unwrap();
    let kp_bytes = bob.generate_key_package().unwrap().tls_serialize_detached().unwrap();

    let mut ctrl = controller("ivan");
    assert_eq!(ctrl.handle_messages(kp_bytes), Ok(()));
    // The commit for existing members and the welcome for the new one.
    assert_eq!(ctrl.drain_outgoing().len(), 2);
    assert!(ctrl.log_lines().is_empty());
}

#[test]
fn hub_scenario_two_clients_exchange_hello() {
    // Hub with capacity two; client A connects, then client B. Both sides run
    // entirely through their dispatchers; the pump below mirrors the shell's
    // policy of dropping frames that cannot be processed (commits for epochs
    // a side has not reached, messages from epochs it has left behind).
    let mut hub = Hub::new(2);
    let a_id = hub.accept();
    let b_id = hub.accept();

    let mut ctrl_a = controller("A");
    let mut ctrl_b = controller("B");

    // A announces its key material; B observes it and runs the add flow.
    assert_eq!(ctrl_a.announce_key(), Ok(()));
    pump(&mut hub, a_id, &mut ctrl_a);
    deliver(&mut hub, b_id, &mut ctrl_b);

    // B's commit and welcome travel back; A joins from the welcome,
    // replacing its solo group, and broadcasts its mandatory rotation.
    pump(&mut hub, b_id, &mut ctrl_b);
    deliver(&mut hub, a_id, &mut ctrl_a);
    pump(&mut hub, a_id, &mut ctrl_a);
    deliver(&mut hub, b_id, &mut ctrl_b);

    // B's next send folds the pending add into its group; its frames stay
    // undelivered here (best-effort delivery), leaving both sides in the
    // same epoch.
    assert_eq!(ctrl_b.send_chat_msg(String::from("x")), Ok(()));
    let _undelivered = ctrl_b.drain_outgoing();

    // A sends hello; B decrypts it and renders it into its log.
    assert_eq!(ctrl_a.send_chat_msg(String::from("hello")), Ok(()));
    pump(&mut hub, a_id, &mut ctrl_a);
    deliver(&mut hub, b_id, &mut ctrl_b);

    let sent = ctrl_a.log_lines().last().unwrap().clone();
    let received = ctrl_b.log_lines().last().unwrap().clone();
    assert_eq!(received, sent);
    assert!(received.ends_with("] A: hello"), "unexpected line: {}", received);
    assert!(received.starts_with('['), "unexpected line: {}", received);
    assert_eq!(received.len(), "[12:00:00] A: hello".len());
}

#[test]
fn out_of_range_scalar_announcement_is_dropped_by_the_dispatcher() {
    // A bare announcement whose package signature carries an out-of-range
    // trailing scalar byte is refused as a failed membership change; the
    // dispatcher returns normally and nothing was queued or logged.
    let mut bob = User::build(String::from("bob")).unwrap();
    let mut kp_bytes = bob.generate_key_package().unwrap().tls_serialize_detached().unwrap();
    let last = kp_bytes.len() - 1;
    kp_bytes[last] |= 0xe0;

    let mut ctrl = controller("mallory");
    assert_eq!(ctrl.handle_messages(kp_bytes), Err(ApplicationError::AddMemberError));
    assert!(ctrl.log_lines().is_empty());
    assert!(ctrl.drain_outgoing().is_empty());
}

#[test]
fn chat_line_renders_time_id_and_text() {
    let line = format_chat_line("12:00:00", "A", "hello");
    assert_eq!(line.as_str(), "[12:00:00] A: hello");
}

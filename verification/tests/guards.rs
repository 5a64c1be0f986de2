use mls_chat::mls::announcement_admissible;
use mls_chat::mls::public_message_from_member;

// A synthetic canonical key-package encoding, small enough to steer every
// field: fixed version and ciphersuite, an init key and leaf encryption key
// of chosen lengths, a basic credential, empty capability lists and
// extensions, an announcement lifetime, and two 64-byte signatures whose
// trailing bytes are chosen.
fn synthetic_announcement(
    init_len: u8,
    enc_len: u8,
    leaf_sig_last: u8,
    kp_sig_last: u8,
) -> Vec<u8> {
    let mut bytes: Vec<u8> = Vec::new();
    bytes.extend_from_slice(&[0, 1, 0, 3]); // protocol version, ciphersuite
    bytes.push(init_len); // init key
    bytes.extend_from_slice(&vec![7u8; init_len as usize]);
    bytes.push(enc_len); // leaf encryption key
    bytes.extend_from_slice(&vec![8u8; enc_len as usize]);
    bytes.push(32); // leaf signature key
    bytes.extend_from_slice(&[9u8; 32]);
    bytes.extend_from_slice(&[0, 1]); // credential type: basic
    bytes.push(3); // identity
    bytes.extend_from_slice(b"bob");
    bytes.extend_from_slice(&[0, 0, 0, 0, 0]); // five empty capability lists
    bytes.push(1); // leaf node source: an announcement carries a lifetime
    bytes.extend_from_slice(&[0u8; 16]);
    bytes.push(0); // leaf extensions
    bytes.extend_from_slice(&[0x40, 0x40]); // leaf signature, 64 bytes
    bytes.extend_from_slice(&[0u8; 63]);
    bytes.push(leaf_sig_last);
    bytes.push(0); // package extensions
    bytes.extend_from_slice(&[0x40, 0x40]); // package signature, 64 bytes
    bytes.extend_from_slice(&[0u8; 63]);
    bytes.push(kp_sig_last);
    bytes
}

#[test]
fn admissibility_accepts_a_well_formed_announcement() {
    assert!(announcement_admissible(&synthetic_announcement(32, 32, 0x1f, 0x00)));
}

#[test]
fn admissibility_refuses_mis_sized_keys() {
    // An init key or leaf encryption key of the wrong length would be sealed
    // to unchecked and abort the provider.
    assert!(!announcement_admissible(&synthetic_announcement(16, 32, 0, 0)));
    assert!(!announcement_admissible(&synthetic_announcement(32, 31, 0, 0)));
}

#[test]
fn admissibility_refuses_out_of_range_scalars() {
    // Either signature's trailing scalar byte with a top bit set would make
    // the provider's backend abort instead of erring.
    assert!(!announcement_admissible(&synthetic_announcement(32, 32, 0xe0, 0)));
    assert!(!announcement_admissible(&synthetic_announcement(32, 32, 0, 0x80)));
    assert!(!announcement_admissible(&synthetic_announcement(32, 32, 0, 0x20)));
}

#[test]
fn admissibility_refuses_what_does_not_walk() {
    assert!(!announcement_admissible(&Vec::new()));
    assert!(!announcement_admissible(&vec![0u8, 1, 0, 3]));
    let mut truncated = synthetic_announcement(32, 32, 0, 0);
    truncated.truncate(truncated.len() - 10);
    assert!(!announcement_admissible(&truncated));
}

// A synthetic public-message envelope down to its sender field: protocol
// version, the public-message body tag, a group id, an epoch and the sender
// kind.
fn synthetic_public_envelope(sender_kind: u8) -> Vec<u8> {
    let mut bytes: Vec<u8> = Vec::new();
    bytes.extend_from_slice(&[0, 1, 0, 1]); // version, body tag: public
    bytes.push(2); // group id
    bytes.extend_from_slice(&[5, 5]);
    bytes.extend_from_slice(&[0u8; 8]); // epoch
    bytes.push(sender_kind);
    bytes
}

#[test]
fn public_messages_are_admitted_only_from_members() {
    // A member sender's message is gated by its membership tag; the sender
    // kinds this system never produces are refused outright.
    assert!(public_message_from_member(&synthetic_public_envelope(1)));
    assert!(!public_message_from_member(&synthetic_public_envelope(2)));
    assert!(!public_message_from_member(&synthetic_public_envelope(3)));
    assert!(!public_message_from_member(&synthetic_public_envelope(4)));
}

#[test]
fn public_message_guard_refuses_other_shapes() {
    let mut welcome_tagged = synthetic_public_envelope(1);
    welcome_tagged[3] = 3;
    assert!(!public_message_from_member(&welcome_tagged));
    assert!(!public_message_from_member(&Vec::new()));
    let mut truncated = synthetic_public_envelope(1);
    truncated.pop();
    assert!(!public_message_from_member(&truncated));
}

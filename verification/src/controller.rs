//! The orchestrator: ties a participant and a transport client together.
//!
//! Each inbound frame runs through one decode-then-dispatch step: first as a
//! protocol envelope, then as a bare key announcement (the fallback shape of
//! first-contact joins); a frame matching neither is malformed, reported as
//! `InvalidMessage` and dropped without touching any state. Outbound chat
//! lines are prefixed with a timestamp and the sender's id, appended to the
//! message log, encrypted, and followed by a mandatory key rotation.

use vstd::prelude::*;
use vstd::seq_lib::*;

use openmls::prelude::KeyPackageIn;
use openmls::prelude::MlsMessageOut;
use openmls::prelude::ProtocolMessage;

use crate::client::Client;
use crate::errors::ApplicationError;
use crate::mls;
use crate::mls::Envelope;
use crate::mls::EnvelopeKind;
use crate::user::User;
use crate::user::UserView;

verus! {

/// The orchestrator state the contracts speak about: the rendered message
/// log, the participant and the transport queues.
#[verifier::ext_equal]
pub struct ControllerView {
    pub log: Seq<Seq<char>>,
    pub user: UserView,
    pub network: crate::client::ClientView,
}

/// One process's orchestrator: the append-only message log, the transport
/// client and the participant.
pub struct Controller {
    log: Vec<String>,
    network: Client,
    user: User,
}

impl View for Controller {
    type V = ControllerView;

    closed spec fn view(&self) -> ControllerView {
        ControllerView { log: self.log.deep_view(), user: self.user@, network: self.network@ }
    }
}

/// A rendered chat line: the timestamp in brackets, the sender's id, a colon,
/// and the text.
pub open spec fn chat_line(time: Seq<char>, id: Seq<char>, msg: Seq<char>) -> Seq<char> {
    seq!['['] + time + seq![']', ' '] + id + seq![':', ' '] + msg
}

/// Builds the rendered chat line `[time] id: msg`.
pub fn format_chat_line(time: &str, id: &str, msg: &str) -> (r: String)
    ensures
        r@ == chat_line(time@, id@, msg@),
{
    let mut line = String::new();
    line.append("[");
    line.append(time);
    line.append("] ");
    line.append(id);
    line.append(": ");
    line.append(msg);
    proof {
        reveal_strlit("[");
        reveal_strlit("] ");
        reveal_strlit(": ");
        assert(line@ =~= chat_line(time@, id@, msg@));
    }
    line
}

/// Relies on `chrono::Utc::now` and its `%H:%M:%S` formatting: whatever the
/// clock reads, the rendering is two digits, a colon, two digits, a colon and
/// two digits — eight characters.
#[verifier::external_body]
fn now_time_string() -> (r: String)
    ensures
        r@.len() == 8,
{
    chrono::Utc::now().time().format("%H:%M:%S").to_string()
}

/// The UTF-8 decoding of a byte sequence: `Some` exactly for valid UTF-8,
/// holding the decoded characters. `String::from_utf8` is a function of the
/// bytes alone.
pub uninterp spec fn utf8_of(bytes: Seq<u8>) -> Option<Seq<char>>;

/// Relies on `String::from_utf8`: `Some` exactly when the bytes are valid
/// UTF-8, holding their decoding.
#[verifier::external_body]
fn utf8_string(bytes: Vec<u8>) -> (r: Option<String>)
    ensures
        match r {
            Some(s) => utf8_of(bytes@) == Some(s@),
            None => utf8_of(bytes@) is None,
        },
{
    String::from_utf8(bytes).ok()
}

impl Controller {
    /// An orchestrator over an already built participant and transport
    /// client, with an empty message log.
    pub fn build(network: Client, user: User) -> (r: Controller)
        ensures
            r@.log == Seq::<Seq<char>>::empty(),
            r@.user == user@,
            r@.network == network@,
    {
        let r = Controller { log: Vec::new(), network, user };
        proof {
            assert(r@.log =~~= Seq::<Seq<char>>::empty());
        }
        r
    }

    /// The rendered message log, for display.
    pub fn log_lines(&self) -> (r: &Vec<String>)
        ensures
            r.deep_view() == self@.log,
    {
        &self.log
    }

    /// Pump side: takes every queued outgoing frame, oldest first, to write
    /// to the socket in that order.
    pub fn drain_outgoing(&mut self) -> (r: Vec<Vec<u8>>)
        ensures
            r.deep_view() == old(self)@.network.outbox,
            final(self)@ == (ControllerView {
                network: crate::client::ClientView {
                    outbox: Seq::empty(),
                    ..old(self)@.network
                },
                ..old(self)@
            }),
    {
        let drained = self.network.drain_output();
        drained
    }

    /// Pump side: records one frame read from the socket.
    pub fn enqueue_incoming(&mut self, msg: Vec<u8>) -> (r: ())
        ensures
            final(self)@ == (ControllerView {
                network: crate::client::ClientView {
                    inbox: old(self)@.network.inbox.push(msg@),
                    ..old(self)@.network
                },
                ..old(self)@
            }),
    {
        self.network.enqueue_incoming(msg);
    }

    /// Takes every frame that arrived since the last poll, oldest first, to
    /// be dispatched one by one.
    pub fn take_incoming(&mut self) -> (r: Vec<Vec<u8>>)
        ensures
            r.deep_view() == old(self)@.network.inbox,
            final(self)@ == (ControllerView {
                network: crate::client::ClientView {
                    inbox: Seq::empty(),
                    ..old(self)@.network
                },
                ..old(self)@
            }),
    {
        let drained = self.network.get_input();
        drained
    }

    /// Announces this participant's key material: builds a key announcement
    /// from the current credential (consuming it) and queues it for
    /// broadcast. Without a credential the announcement fails with
    /// `KeyPackageDNE` and nothing changes.
    pub fn announce_key(&mut self) -> (r: Result<(), ApplicationError>)
        ensures
            final(self)@.log == old(self)@.log,
            final(self)@.user.id == old(self)@.user.id,
            final(self)@.user.has_group == old(self)@.user.has_group,
            final(self)@.network.inbox == old(self)@.network.inbox,
            !old(self)@.user.has_credential ==> r == Err::<(), ApplicationError>(
                ApplicationError::KeyPackageDNE,
            ) && final(self)@ == old(self)@,
            old(self)@.user.has_credential ==> !final(self)@.user.has_credential,
            old(self)@.user.has_credential && r is Err ==> r->Err_0
                == ApplicationError::CryptoError || r->Err_0
                == ApplicationError::TlsSerializeError,
            r is Ok ==> final(self)@.network.outbox.len() == old(self)@.network.outbox.len() + 1
                && old(self)@.network.outbox.is_prefix_of(final(self)@.network.outbox),
            r is Err ==> final(self)@.network.outbox == old(self)@.network.outbox && (r->Err_0
                == ApplicationError::KeyPackageDNE || r->Err_0 == ApplicationError::CryptoError
                || r->Err_0 == ApplicationError::TlsSerializeError),
    {
        if !self.user.has_credential() {
            return Err(ApplicationError::KeyPackageDNE);
        }
        let key_package = match self.user.generate_key_package() {
            Ok(key_package) => key_package,
            Err(err) => {
                return Err(err);
            },
        };
        match mls::serialize_key_package(&key_package) {
            Some(bytes) => {
                self.network.send(bytes);
                Ok(())
            },
            None => Err(ApplicationError::TlsSerializeError),
        }
    }

    /// Dispatches one inbound frame.
    ///
    /// A protocol envelope is tried first. A welcome is joined, replacing
    /// whatever group the participant held: every participant initiates a
    /// solo group at construction, so being welcomed into a peer's group must
    /// supersede it (a welcome that references key material this participant
    /// does not hold — one addressed to somebody else — is refused with the
    /// key-material error and changes nothing). A join is followed by a
    /// mandatory key rotation. A key announcement triggers the member-add
    /// flow, reserved group metadata is a no-op, and a private or public
    /// message is processed, appending its decoded plaintext to the log (a
    /// public message is admitted only from a member sender; the other
    /// sender kinds, which this system never produces, are dropped as
    /// processing failures before any provider call). A
    /// frame that is no envelope is tried as a bare key announcement; one
    /// that is neither is malformed: exactly then the result is
    /// `InvalidMessage`, and the frame is dropped with nothing changed.
    pub fn handle_messages(&mut self, msg: Vec<u8>) -> (r: Result<(), ApplicationError>)
        ensures
            final(self)@.user.id == old(self)@.user.id,
            final(self)@.network.inbox == old(self)@.network.inbox,
            old(self)@.log.is_prefix_of(final(self)@.log),
            old(self)@.network.outbox.is_prefix_of(final(self)@.network.outbox),
            (mls::envelope_kind(msg@) is None && !mls::announcement_decodes(msg@)) <==> r == Err::<
                (),
                ApplicationError,
            >(ApplicationError::InvalidMessage),
            r == Err::<(), ApplicationError>(ApplicationError::InvalidMessage) ==> final(self)@
                == old(self)@,
            mls::envelope_kind(msg@) == Some(EnvelopeKind::GroupInfo) ==> r is Ok && final(self)@
                == old(self)@,
            mls::envelope_kind(msg@) == Some(EnvelopeKind::Welcome) ==> final(self)@.log
                == old(self)@.log,
            mls::envelope_kind(msg@) == Some(EnvelopeKind::Welcome) && r is Ok
                ==> final(self)@.user.has_group && final(self)@.user.has_credential
                && final(self)@.network.outbox.len() == old(self)@.network.outbox.len() + 1,
            r == Err::<(), ApplicationError>(ApplicationError::KeyPackageDNE) ==> final(self)@
                == old(self)@,
            (mls::envelope_kind(msg@) == Some(EnvelopeKind::KeyAnnouncement) || (mls::envelope_kind(
                msg@,
            ) is None && mls::announcement_decodes(msg@))) ==> final(self)@.log == old(self)@.log
                && final(self)@.user == old(self)@.user && (r is Ok
                ==> final(self)@.network.outbox.len() == old(self)@.network.outbox.len() + 2),
            (mls::envelope_kind(msg@) == Some(EnvelopeKind::Private) || mls::envelope_kind(msg@)
                == Some(EnvelopeKind::Public)) ==> final(self)@.user == old(self)@.user
                && final(self)@.network == old(self)@.network && final(self)@.log.len()
                <= old(self)@.log.len() + 1,
            (mls::envelope_kind(msg@) == Some(EnvelopeKind::Private) || mls::envelope_kind(msg@)
                == Some(EnvelopeKind::Public)) && r is Err ==> (r->Err_0
                == ApplicationError::GroupDNE || r->Err_0 == ApplicationError::ProcessMessageError),
            (mls::envelope_kind(msg@) == Some(EnvelopeKind::Private) || mls::envelope_kind(msg@)
                == Some(EnvelopeKind::Public)) && final(self)@.log.len() == old(self)@.log.len()
                + 1 ==> (exists|p: Seq<u8>| utf8_of(p) == Some(final(self)@.log.last())),
    {
        match mls::decode_envelope(&msg) {
            Some(envelope) => match envelope {
                Envelope::Welcome(welcome) => {
                    if let Err(err) = self.user.join_group(welcome) {
                        return Err(err);
                    }
                    let rotation = match self.user.update_keys() {
                        Ok(rotation) => rotation,
                        Err(err) => {
                            return Err(err);
                        },
                    };
                    self.serialize_and_send(&rotation)
                },
                Envelope::KeyAnnouncement(key_package) => self.add_and_welcome(key_package),
                Envelope::GroupInfo(_) => Ok(()),
                Envelope::Private(message) => self.process_and_log(message),
                Envelope::Public(message) => {
                    if !mls::public_message_from_member(&msg) {
                        Err(ApplicationError::ProcessMessageError)
                    } else {
                        self.process_and_log(message)
                    }
                },
            },
            None => match mls::decode_key_announcement(&msg) {
                Some(key_package) => self.add_and_welcome(key_package),
                None => Err(ApplicationError::InvalidMessage),
            },
        }
    }

    /// Formats the user's text as a chat line with the current time and the
    /// sender's id, appends it to the log (even when a later step fails),
    /// encrypts and queues it, then rotates the key material and queues the
    /// rotation: one rotation after every outgoing message, to bound the
    /// exposure of any single key.
    pub fn send_chat_msg(&mut self, msg: String) -> (r: Result<(), ApplicationError>)
        ensures
            final(self)@.user.id == old(self)@.user.id,
            final(self)@.user.has_group == old(self)@.user.has_group,
            final(self)@.network.inbox == old(self)@.network.inbox,
            old(self)@.log.is_prefix_of(final(self)@.log),
            old(self)@.network.outbox.is_prefix_of(final(self)@.network.outbox),
            final(self)@.log.len() == old(self)@.log.len() + 1,
            (exists|t: Seq<char>|
                t.len() == 8 && final(self)@.log.last() == chat_line(
                    t,
                    old(self)@.user.id,
                    msg@,
                )),
            r is Ok ==> final(self)@.network.outbox.len() == old(self)@.network.outbox.len() + 2
                && final(self)@.user.has_credential,
            r is Err ==> !(r->Err_0 == ApplicationError::InvalidMessage),
    {
        let time = now_time_string();
        let id = self.user.get_id().clone();
        let line = format_chat_line(time.as_str(), id.as_str(), msg.as_str());
        let ghost line_view = line@;
        self.log.push(line.clone());
        proof {
            assert(self@.log =~~= old(self)@.log.push(line_view));
            assert(self@.log.last() == chat_line(time@, old(self)@.user.id, msg@));
        }
        let encrypted = match self.user.encrypt_message(line.as_str()) {
            Ok(encrypted) => encrypted,
            Err(err) => {
                return Err(err);
            },
        };
        if let Err(err) = self.serialize_and_send(&encrypted) {
            return Err(err);
        }
        let rotation = match self.user.update_keys() {
            Ok(rotation) => rotation,
            Err(err) => {
                return Err(err);
            },
        };
        self.serialize_and_send(&rotation)
    }

    /// The member-add flow shared by the two wire shapes of a key
    /// announcement: produce the commit and the welcome and queue both for
    /// broadcast (only the intended recipient can use the welcome).
    fn add_and_welcome(&mut self, key_package: KeyPackageIn) -> (r: Result<(), ApplicationError>)
        ensures
            final(self)@.log == old(self)@.log,
            final(self)@.user == old(self)@.user,
            final(self)@.network.inbox == old(self)@.network.inbox,
            old(self)@.network.outbox.is_prefix_of(final(self)@.network.outbox),
            r is Ok ==> final(self)@.network.outbox.len() == old(self)@.network.outbox.len() + 2,
            r is Err ==> (r->Err_0 == ApplicationError::GroupDNE || r->Err_0
                == ApplicationError::AddMemberError || r->Err_0
                == ApplicationError::TlsSerializeError),
    {
        let (commit, welcome) = match self.user.add_member(key_package) {
            Ok(artifacts) => artifacts,
            Err(err) => {
                return Err(err);
            },
        };
        if let Err(err) = self.serialize_and_send(&commit) {
            return Err(err);
        }
        self.serialize_and_send(&welcome)
    }

    /// Renders a decrypted application payload into the message log: the log
    /// gains exactly the UTF-8 decoding of the payload. A payload that is not
    /// valid UTF-8 cannot be rendered, which is exactly the processing-error
    /// case; nothing changes then.
    pub fn append_plaintext(&mut self, plaintext: Vec<u8>) -> (r: Result<(), ApplicationError>)
        ensures
            final(self)@.user == old(self)@.user,
            final(self)@.network == old(self)@.network,
            r is Ok <==> utf8_of(plaintext@) is Some,
            r is Ok ==> final(self)@.log == old(self)@.log.push(utf8_of(plaintext@)->Some_0),
            r is Err ==> r == Err::<(), ApplicationError>(ApplicationError::ProcessMessageError)
                && final(self)@ == old(self)@,
    {
        match utf8_string(plaintext) {
            Some(line) => {
                let ghost line_view = line@;
                self.log.push(line);
                proof {
                    assert(self@.log =~~= old(self)@.log.push(line_view));
                }
                Ok(())
            },
            None => Err(ApplicationError::ProcessMessageError),
        }
    }

    /// Processes one private or public protocol message; a decrypted
    /// application payload is rendered into the log through
    /// `append_plaintext`, management content is merged silently. Whenever
    /// the log grows, the new line is the UTF-8 decoding of the decrypted
    /// payload.
    fn process_and_log(&mut self, message: ProtocolMessage) -> (r: Result<(), ApplicationError>)
        ensures
            final(self)@.user == old(self)@.user,
            final(self)@.network == old(self)@.network,
            old(self)@.log.is_prefix_of(final(self)@.log),
            final(self)@.log.len() <= old(self)@.log.len() + 1,
            final(self)@.log.len() == old(self)@.log.len() + 1 ==> (exists|p: Seq<u8>|
                utf8_of(p) == Some(final(self)@.log.last())),
            r is Err ==> (r->Err_0 == ApplicationError::GroupDNE || r->Err_0
                == ApplicationError::ProcessMessageError) && final(self)@.log == old(self)@.log,
    {
        match self.user.process_message(message) {
            Ok(Some(plaintext)) => {
                let ghost payload = plaintext@;
                let appended = self.append_plaintext(plaintext);
                proof {
                    if appended is Ok {
                        assert(utf8_of(payload) == Some(self@.log.last()));
                    }
                }
                appended
            },
            Ok(None) => Ok(()),
            Err(err) => Err(err),
        }
    }

    /// Serializes one outbound artifact and queues it for the pump. Exactly a
    /// serialization failure is reported, with nothing changed then.
    fn serialize_and_send(&mut self, msg: &MlsMessageOut) -> (r: Result<(), ApplicationError>)
        ensures
            final(self)@.log == old(self)@.log,
            final(self)@.user == old(self)@.user,
            final(self)@.network.inbox == old(self)@.network.inbox,
            old(self)@.network.outbox.is_prefix_of(final(self)@.network.outbox),
            r is Ok ==> final(self)@.network.outbox.len() == old(self)@.network.outbox.len() + 1,
            r is Err ==> r->Err_0 == ApplicationError::TlsSerializeError && final(self)@ == old(
                self,
            )@,
    {
        match mls::serialize_message(msg) {
            Some(bytes) => {
                self.network.send(bytes);
                Ok(())
            },
            None => Err(ApplicationError::TlsSerializeError),
        }
    }
}

} // verus!

//! The transport client: one logical connection with two queues.
//!
//! The client itself only queues frames. A background pump (outside this
//! library) repeatedly writes every queued outgoing frame to the socket and
//! enqueues every frame read from it; callers retrieve arrivals by draining
//! the incoming queue. Sending therefore never blocks on the network.

use vstd::prelude::*;

use crate::framing;

verus! {

/// The two queues of one connection, as sequences of frame contents. Outgoing
/// frames already carry their wire delimiter; incoming frames have had it
/// stripped.
#[verifier::ext_equal]
pub struct ClientView {
    pub inbox: Seq<Seq<u8>>,
    pub outbox: Seq<Seq<u8>>,
}

/// A single outbound/inbound connection abstraction. Frames queued by `send`
/// leave through the pump in the order they were queued; frames the pump
/// enqueues are handed to the caller in the order they arrived.
pub struct Client {
    input: Vec<Vec<u8>>,
    output: Vec<Vec<u8>>,
}

impl View for Client {
    type V = ClientView;

    closed spec fn view(&self) -> ClientView {
        ClientView { inbox: self.input.deep_view(), outbox: self.output.deep_view() }
    }
}

impl Client {
    /// A fresh client with empty queues. Connecting the underlying socket is
    /// the pump's affair, not this type's.
    pub fn build() -> (r: Client)
        ensures
            r@.inbox == Seq::<Seq<u8>>::empty(),
            r@.outbox == Seq::<Seq<u8>>::empty(),
    {
        let r = Client { input: Vec::new(), output: Vec::new() };
        proof {
            assert(r@.inbox =~~= Seq::<Seq<u8>>::empty());
            assert(r@.outbox =~~= Seq::<Seq<u8>>::empty());
        }
        r
    }

    /// Queues one frame for the pump, terminated by the wire delimiter. Does
    /// not touch the network.
    pub fn send(&mut self, msg: Vec<u8>) -> (r: ())
        ensures
            final(self)@.outbox == old(self)@.outbox.push(msg@.push(framing::DELIMITER)),
            final(self)@.inbox == old(self)@.inbox,
    {
        let framed = framing::encode_frame(&msg);
        self.output.push(framed);
        proof {
            assert(final(self)@.outbox =~~= old(self)@.outbox.push(msg@.push(framing::DELIMITER)));
        }
    }

    /// Returns every frame received since the queue was last drained, oldest
    /// first, and empties the queue.
    pub fn get_input(&mut self) -> (r: Vec<Vec<u8>>)
        ensures
            r.deep_view() == old(self)@.inbox,
            final(self)@.inbox == Seq::<Seq<u8>>::empty(),
            final(self)@.outbox == old(self)@.outbox,
    {
        let mut drained: Vec<Vec<u8>> = Vec::new();
        core::mem::swap(&mut drained, &mut self.input);
        proof {
            assert(final(self)@.inbox =~~= Seq::<Seq<u8>>::empty());
        }
        drained
    }

    /// Pump side: records one frame read from the socket, already stripped of
    /// its delimiter.
    pub fn enqueue_incoming(&mut self, msg: Vec<u8>) -> (r: ())
        ensures
            final(self)@.inbox == old(self)@.inbox.push(msg@),
            final(self)@.outbox == old(self)@.outbox,
    {
        self.input.push(msg);
        proof {
            assert(final(self)@.inbox =~~= old(self)@.inbox.push(msg@));
        }
    }

    /// Pump side: takes every currently queued outgoing frame, oldest first,
    /// to be written to the socket in that order.
    pub fn drain_output(&mut self) -> (r: Vec<Vec<u8>>)
        ensures
            r.deep_view() == old(self)@.outbox,
            final(self)@.outbox == Seq::<Seq<u8>>::empty(),
            final(self)@.inbox == old(self)@.inbox,
    {
        let mut drained: Vec<Vec<u8>> = Vec::new();
        core::mem::swap(&mut drained, &mut self.output);
        proof {
            assert(final(self)@.outbox =~~= Seq::<Seq<u8>>::empty());
        }
        drained
    }
}

} // verus!

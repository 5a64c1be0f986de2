//! The transport hub: connection registry, bounded intake queue and fan-out.
//!
//! The hub has no protocol awareness; it only moves frames. Per connection a
//! reader (outside this library) forwards each received frame into the single
//! bounded intake queue; a single fan-out step drains that queue and appends
//! the frame to the pending writes of every registered connection except the
//! originator. Registration happens at accept time; de-registration when the
//! reader observes end-of-stream. Because the intake queue is one queue
//! processed front to back, frames from a single connection reach every other
//! connection in the order they were received.

use vstd::prelude::*;

verus! {

/// One registered connection: its unique id and the frames that are queued to
/// be written to it, oldest first.
#[verifier::ext_equal]
pub struct ConnectionView {
    pub id: int,
    pub outbox: Seq<Seq<u8>>,
}

/// The hub's whole state: the id the next accepted connection will get, the
/// intake capacity, the registry and the intake queue of (originator, frame)
/// pairs.
#[verifier::ext_equal]
pub struct HubView {
    pub next_id: int,
    pub capacity: int,
    pub conns: Seq<ConnectionView>,
    pub intake: Seq<(int, Seq<u8>)>,
}

impl HubView {
    /// Well-formedness: ids are assigned monotonically, so every registered id
    /// is below `next_id` and no two connections share one.
    pub open spec fn wf(self) -> bool {
        &&& forall|i: int| 0 <= i < self.conns.len() ==> 0 <= #[trigger] self.conns[i].id
            < self.next_id
        &&& forall|i: int, j: int|
            0 <= i < j < self.conns.len() ==> #[trigger] self.conns[i].id != #[trigger] self.conns[j].id
    }
}

/// The registry after one frame from `origin` has been fanned out: every other
/// connection's outbox grows by exactly that frame at the end; the
/// originator's entry is untouched.
pub open spec fn fanout_spec(conns: Seq<ConnectionView>, origin: int, frame: Seq<u8>) -> Seq<
    ConnectionView,
> {
    conns.map(
        |i: int, c: ConnectionView|
            if c.id == origin {
                c
            } else {
                ConnectionView { id: c.id, outbox: c.outbox.push(frame) }
            },
    )
}

/// The registry with the first connection carrying `id` removed; without one
/// it is unchanged. Under `wf` at most one entry carries any id.
pub open spec fn remove_conn(conns: Seq<ConnectionView>, id: int) -> Seq<ConnectionView>
    decreases conns.len(),
{
    if conns.len() == 0 {
        conns
    } else if conns[0].id == id {
        conns.drop_first()
    } else {
        seq![conns[0]] + remove_conn(conns.drop_first(), id)
    }
}

struct Connection {
    id: usize,
    outbox: Vec<Vec<u8>>,
}

/// The hub's concrete state. All mutation goes through `accept`,
/// `disconnect`, `offer` and `fanout_next`; the laws below relate those
/// operations.
pub struct Hub {
    next_id: usize,
    capacity: usize,
    conns: Vec<Connection>,
    intake: Vec<(usize, Vec<u8>)>,
}

impl View for Connection {
    type V = ConnectionView;

    closed spec fn view(&self) -> ConnectionView {
        ConnectionView { id: self.id as int, outbox: self.outbox.deep_view() }
    }
}

impl View for Hub {
    type V = HubView;

    closed spec fn view(&self) -> HubView {
        HubView {
            next_id: self.next_id as int,
            capacity: self.capacity as int,
            conns: Seq::new(self.conns@.len(), |i: int| self.conns@[i]@),
            intake: Seq::new(
                self.intake@.len(),
                |i: int| (self.intake@[i].0 as int, self.intake@[i].1@),
            ),
        }
    }
}

impl Hub {
    /// A hub that accepts up to `capacity` queued frames at a time and holds
    /// no connections yet.
    pub fn new(capacity: usize) -> (r: Hub)
        ensures
            r@.wf(),
            r@.next_id == 0,
            r@.capacity == capacity as int,
            r@.conns == Seq::<ConnectionView>::empty(),
            r@.intake == Seq::<(int, Seq<u8>)>::empty(),
    {
        let r = Hub { next_id: 0, capacity, conns: Vec::new(), intake: Vec::new() };
        proof {
            assert(r@.conns =~= Seq::<ConnectionView>::empty());
            assert(r@.intake =~= Seq::<(int, Seq<u8>)>::empty());
        }
        r
    }

    /// Registers a new connection and returns its id, which no current or
    /// previous connection carries.
    pub fn accept(&mut self) -> (id: usize)
        requires
            old(self)@.wf(),
            old(self)@.next_id < usize::MAX,
        ensures
            final(self)@.wf(),
            id as int == old(self)@.next_id,
            final(self)@.next_id == old(self)@.next_id + 1,
            final(self)@.conns == old(self)@.conns.push(
                ConnectionView { id: id as int, outbox: Seq::empty() },
            ),
            final(self)@.intake == old(self)@.intake,
            final(self)@.capacity == old(self)@.capacity,
            forall|i: int|
                0 <= i < old(self)@.conns.len() ==> #[trigger] old(self)@.conns[i].id != id as int,
    {
        let id = self.next_id;
        self.next_id = self.next_id + 1;
        self.conns.push(Connection { id, outbox: Vec::new() });
        proof {
            assert(final(self)@.conns =~~= old(self)@.conns.push(
                ConnectionView { id: id as int, outbox: Seq::empty() },
            ));
            assert(final(self)@.intake =~~= old(self)@.intake);
        }
        id
    }

    /// How many connections have ever been accepted; the id the next one
    /// would get. `accept` demands that this has not exhausted the id space.
    pub fn accepted_total(&self) -> (r: usize)
        ensures
            r as int == self@.next_id,
    {
        self.next_id
    }

    /// De-registers the connection carrying `id`. Frames fanned out later are
    /// silently skipped for it.
    #[verifier::loop_isolation(false)]
    pub fn disconnect(&mut self, id: usize) -> (r: ())
        requires
            old(self)@.wf(),
        ensures
            final(self)@.wf(),
            final(self)@.conns == remove_conn(old(self)@.conns, id as int),
            final(self)@.next_id == old(self)@.next_id,
            final(self)@.capacity == old(self)@.capacity,
            final(self)@.intake == old(self)@.intake,
    {
        let ghost pre = self@;
        let mut i: usize = 0;
        while i < self.conns.len()
            invariant
                self@ == pre,
                i <= self.conns@.len(),
                forall|j: int| 0 <= j < i ==> #[trigger] pre.conns[j].id != id as int,
            decreases self.conns@.len() - i,
        {
            if self.conns[i].id == id {
                self.conns.remove(i);
                proof {
                    lemma_remove_conn_at(pre.conns, id as int, i as int);
                    assert(final(self)@.conns =~~= pre.conns.remove(i as int));
                    assert(final(self)@.intake =~~= pre.intake);
                    lemma_remove_keeps_wf(pre, id as int, i as int);
                }
                return ;
            }
            i = i + 1;
        }
        proof {
            lemma_remove_conn_absent(pre.conns, id as int);
            assert(final(self)@.conns =~~= pre.conns);
        }
    }

    /// A reader offers one received frame. It is queued unless the intake
    /// queue is at capacity, in which case the reader must hold the frame and
    /// try again (backpressure, never silent loss).
    pub fn offer(&mut self, origin: usize, frame: Vec<u8>) -> (accepted: bool)
        requires
            old(self)@.wf(),
        ensures
            final(self)@.wf(),
            accepted == (old(self)@.intake.len() < old(self)@.capacity),
            accepted ==> final(self)@.intake == old(self)@.intake.push(
                (origin as int, frame@),
            ),
            !accepted ==> final(self)@.intake == old(self)@.intake,
            final(self)@.conns == old(self)@.conns,
            final(self)@.next_id == old(self)@.next_id,
            final(self)@.capacity == old(self)@.capacity,
    {
        if self.intake.len() < self.capacity {
            self.intake.push((origin, frame));
            proof {
                assert(final(self)@.intake =~~= old(self)@.intake.push(
                    (origin as int, frame@),
                ));
                assert(final(self)@.conns =~~= old(self)@.conns);
            }
            true
        } else {
            false
        }
    }

    /// The fan-out step: takes the oldest queued (originator, frame) pair and
    /// appends the frame to every registered connection except the
    /// originator. Returns the originator's id, or `None` when nothing was
    /// queued.
    #[verifier::loop_isolation(false)]
    pub fn fanout_next(&mut self) -> (r: Option<usize>)
        requires
            old(self)@.wf(),
        ensures
            final(self)@.wf(),
            final(self)@.next_id == old(self)@.next_id,
            final(self)@.capacity == old(self)@.capacity,
            match r {
                Some(origin) => old(self)@.intake.len() > 0 && origin as int
                    == old(self)@.intake[0].0 && final(self)@.intake
                    == old(self)@.intake.drop_first() && final(self)@.conns == fanout_spec(
                    old(self)@.conns,
                    old(self)@.intake[0].0,
                    old(self)@.intake[0].1,
                ),
                None => old(self)@.intake.len() == 0 && final(self)@ == old(self)@,
            },
    {
        if self.intake.len() == 0 {
            return None;
        }
        let (origin, frame) = self.intake.remove(0);
        let ghost mid = self@;
        let mut i: usize = 0;
        while i < self.conns.len()
            invariant
                self@.next_id == mid.next_id,
                self@.capacity == mid.capacity,
                self@.intake == mid.intake,
                i <= self.conns@.len(),
                self@.conns.len() == mid.conns.len(),
                forall|j: int|
                    0 <= j < i ==> #[trigger] self@.conns[j] == fanout_spec(
                        mid.conns,
                        origin as int,
                        frame@,
                    )[j],
                forall|j: int| i <= j < mid.conns.len() ==> #[trigger] self@.conns[j] == mid.conns[j],
            decreases self.conns@.len() - i,
        {
            if self.conns[i].id != origin {
                let ghost before = self@;
                self.conns[i].outbox.push(frame.clone());
                proof {
                    assert(self@.conns[i as int].outbox =~~= before.conns[i as int].outbox.push(
                        frame@,
                    ));
                    assert(forall|j: int|
                        0 <= j < before.conns.len() && j != i ==> #[trigger] self@.conns[j]
                            == before.conns[j]);
                }
            }
            i = i + 1;
        }
        proof {
            assert(self@.conns =~~= fanout_spec(mid.conns, origin as int, frame@));
            assert(mid.intake =~~= old(self)@.intake.drop_first());
            assert(mid.conns =~~= old(self)@.conns);
        }
        Some(origin)
    }

    /// Takes the frames queued for connection `id`, oldest first, to be
    /// written to its socket in that order, and clears its queue.
    #[verifier::loop_isolation(false)]
    pub fn drain_conn(&mut self, id: usize) -> (r: Vec<Vec<u8>>)
        requires
            old(self)@.wf(),
        ensures
            final(self)@.wf(),
            final(self)@.next_id == old(self)@.next_id,
            final(self)@.capacity == old(self)@.capacity,
            final(self)@.intake == old(self)@.intake,
            final(self)@.conns.len() == old(self)@.conns.len(),
            forall|j: int|
                0 <= j < old(self)@.conns.len() && old(self)@.conns[j].id != id as int
                    ==> #[trigger] final(self)@.conns[j] == old(self)@.conns[j],
            forall|j: int|
                0 <= j < old(self)@.conns.len() && old(self)@.conns[j].id == id as int
                    ==> (#[trigger] final(self)@.conns[j] == (ConnectionView {
                    id: id as int,
                    outbox: Seq::empty(),
                }) && r.deep_view() == old(self)@.conns[j].outbox),
            ((forall|j: int|
                0 <= j < old(self)@.conns.len() ==> #[trigger] old(self)@.conns[j].id != id as int)
                ==> r.deep_view() == Seq::<Seq<u8>>::empty()),
    {
        let ghost pre = self@;
        let mut i: usize = 0;
        while i < self.conns.len()
            invariant
                self@ == pre,
                i <= self.conns@.len(),
                forall|j: int| 0 <= j < i ==> #[trigger] pre.conns[j].id != id as int,
            decreases self.conns@.len() - i,
        {
            if self.conns[i].id == id {
                let mut drained: Vec<Vec<u8>> = Vec::new();
                core::mem::swap(&mut drained, &mut self.conns[i].outbox);
                proof {
                    assert(self@.conns[i as int].outbox =~~= Seq::<Seq<u8>>::empty());
                    assert(self@.conns[i as int] == ConnectionView {
                        id: id as int,
                        outbox: Seq::<Seq<u8>>::empty(),
                    });
                    assert(self@.intake =~~= pre.intake);
                    assert(forall|j: int|
                        0 <= j < pre.conns.len() && j != i ==> #[trigger] self@.conns[j]
                            == pre.conns[j]);
                    assert(pre.conns[i as int].id == id as int);
                    assert forall|j: int|
                        0 <= j < pre.conns.len() && #[trigger] pre.conns[j].id == id as int implies j
                        == i as int by {
                        if j < i as int {
                            assert(pre.conns[j].id != pre.conns[i as int].id);
                        }
                        if j > i as int {
                            assert(pre.conns[i as int].id != pre.conns[j].id);
                        }
                    }
                    assert(forall|j: int|
                        0 <= j < pre.conns.len() ==> #[trigger] self@.conns[j].id
                            == pre.conns[j].id);
                    assert(self@.wf());
                    assert(drained.deep_view() =~~= pre.conns[i as int].outbox);
                }
                return drained;
            }
            i = i + 1;
        }
        let drained: Vec<Vec<u8>> = Vec::new();
        proof {
            assert(drained.deep_view() =~~= Seq::<Seq<u8>>::empty());
        }
        drained
    }
}

/// Fan-out reaches exactly the other connections: after one fan-out of
/// `frame` from `origin`, a connection whose id is the originator's is
/// untouched, and every other connection's pending writes grow by exactly
/// that one frame, at the end. In particular each non-originator observes the
/// frame exactly once more than before.
pub proof fn lemma_fanout_observation(conns: Seq<ConnectionView>, origin: int, frame: Seq<u8>)
    ensures
        fanout_spec(conns, origin, frame).len() == conns.len(),
        forall|j: int|
            0 <= j < conns.len() && conns[j].id == origin ==> #[trigger] fanout_spec(
                conns,
                origin,
                frame,
            )[j] == conns[j],
        forall|j: int|
            0 <= j < conns.len() && conns[j].id != origin ==> #[trigger] fanout_spec(
                conns,
                origin,
                frame,
            )[j].outbox == conns[j].outbox.push(frame) && fanout_spec(conns, origin, frame)[j].id
                == conns[j].id,
{
}

/// Ordering: two frames fanned out one after the other from the same
/// originator stand in every other connection's pending writes in exactly
/// that order, directly after what was already queued; the originator's own
/// queue is untouched.
pub proof fn lemma_fanout_order(
    conns: Seq<ConnectionView>,
    origin: int,
    first: Seq<u8>,
    second: Seq<u8>,
)
    ensures
        ({
            let after = fanout_spec(fanout_spec(conns, origin, first), origin, second);
            &&& after.len() == conns.len()
            &&& forall|j: int|
                0 <= j < conns.len() && conns[j].id != origin ==> #[trigger] after[j].outbox
                    == conns[j].outbox.push(first).push(second)
            &&& forall|j: int|
                0 <= j < conns.len() && conns[j].id == origin ==> #[trigger] after[j] == conns[j]
        }),
{
}

/// The registry after a whole sequence of fan-out steps, applied front to
/// back — the order in which `fanout_next` drains the intake queue.
pub open spec fn apply_fanouts(
    conns: Seq<ConnectionView>,
    events: Seq<(int, Seq<u8>)>,
) -> Seq<ConnectionView>
    decreases events.len(),
{
    if events.len() == 0 {
        conns
    } else {
        apply_fanouts(fanout_spec(conns, events[0].0, events[0].1), events.drop_first())
    }
}

/// Fan-out steps never add, drop or renumber connections.
pub proof fn lemma_apply_fanouts_ids(conns: Seq<ConnectionView>, events: Seq<(int, Seq<u8>)>)
    ensures
        apply_fanouts(conns, events).len() == conns.len(),
        forall|j: int|
            0 <= j < conns.len() ==> #[trigger] apply_fanouts(conns, events)[j].id == conns[j].id,
    decreases events.len(),
{
    if events.len() > 0 {
        lemma_apply_fanouts_ids(fanout_spec(conns, events[0].0, events[0].1), events.drop_first());
    }
}

/// Fan-out steps only append: whatever a connection's queue held stays where
/// it was.
pub proof fn lemma_apply_fanouts_prefix(
    conns: Seq<ConnectionView>,
    events: Seq<(int, Seq<u8>)>,
    j: int,
)
    requires
        0 <= j < conns.len(),
    ensures
        conns[j].outbox.is_prefix_of(apply_fanouts(conns, events)[j].outbox),
    decreases events.len(),
{
    if events.len() > 0 {
        let stepped = fanout_spec(conns, events[0].0, events[0].1);
        lemma_apply_fanouts_prefix(stepped, events.drop_first(), j);
        assert(conns[j].outbox.is_prefix_of(stepped[j].outbox));
    }
}

/// Applying a sequence of fan-out steps is the same as applying a front part
/// and then the rest.
proof fn lemma_apply_fanouts_split(
    conns: Seq<ConnectionView>,
    events: Seq<(int, Seq<u8>)>,
    k: int,
)
    requires
        0 <= k <= events.len(),
    ensures
        apply_fanouts(conns, events) == apply_fanouts(
            apply_fanouts(conns, events.take(k)),
            events.skip(k),
        ),
    decreases k,
{
    if k == 0 {
        assert(events.take(0) =~= Seq::<(int, Seq<u8>)>::empty());
        assert(events.skip(0) =~= events);
    } else {
        let stepped = fanout_spec(conns, events[0].0, events[0].1);
        lemma_apply_fanouts_split(stepped, events.drop_first(), k - 1);
        assert(events.drop_first().take(k - 1) =~= events.take(k).drop_first());
        assert(events.drop_first().skip(k - 1) =~= events.skip(k));
        assert(apply_fanouts(conns, events.take(k)) == apply_fanouts(
            stepped,
            events.take(k).drop_first(),
        ));
    }
}

proof fn lemma_apply_fanouts_one(conns: Seq<ConnectionView>, e: (int, Seq<u8>))
    ensures
        apply_fanouts(conns, seq![e]) == fanout_spec(conns, e.0, e.1),
{
    assert(seq![e].drop_first() =~~= Seq::<(int, Seq<u8>)>::empty());
    assert(apply_fanouts(fanout_spec(conns, e.0, e.1), Seq::<(int, Seq<u8>)>::empty())
        == fanout_spec(conns, e.0, e.1));
}

/// Ordering across a whole run: when two frames from the same originator
/// stand in the intake order at positions `a` before `b`, then after the
/// whole sequence of fan-out steps every other connection holds the first at
/// a strictly earlier queue position than the second. Frames sent
/// sequentially by one connection are thus observed by every other connection
/// in the order they were sent, whatever other traffic is interleaved.
pub proof fn lemma_fanout_sequence_order(
    conns: Seq<ConnectionView>,
    events: Seq<(int, Seq<u8>)>,
    a: int,
    b: int,
    j: int,
)
    requires
        0 <= a < b < events.len(),
        events[a].0 == events[b].0,
        0 <= j < conns.len(),
        conns[j].id != events[a].0,
    ensures
        ({
            let after = apply_fanouts(conns, events);
            exists|i1: int, i2: int|
                0 <= i1 < i2 < after[j].outbox.len() && after[j].outbox[i1] == events[a].1
                    && after[j].outbox[i2] == events[b].1
        }),
{
    let after = apply_fanouts(conns, events);
    let pre_a = apply_fanouts(conns, events.take(a));
    let at_a = apply_fanouts(conns, events.take(a + 1));
    let pre_b = apply_fanouts(conns, events.take(b));
    let at_b = apply_fanouts(conns, events.take(b + 1));

    // One step: applying the first a+1 events is applying a, then event a.
    lemma_apply_fanouts_split(conns, events.take(a + 1), a);
    assert(events.take(a + 1).take(a) =~~= events.take(a));
    assert(events.take(a + 1).skip(a) =~~= seq![events[a]]);
    lemma_apply_fanouts_one(pre_a, events[a]);
    assert(at_a == fanout_spec(pre_a, events[a].0, events[a].1));

    lemma_apply_fanouts_ids(conns, events.take(a));
    assert(pre_a[j].id == conns[j].id);
    let i1 = pre_a[j].outbox.len() as int;
    assert(at_a[j].outbox == pre_a[j].outbox.push(events[a].1));
    assert(at_a[j].outbox[i1] == events[a].1);

    // The steps strictly between a and b keep everything appended so far.
    lemma_apply_fanouts_split(conns, events.take(b), a + 1);
    assert(events.take(b).take(a + 1) =~~= events.take(a + 1));
    assert(pre_b == apply_fanouts(at_a, events.take(b).skip(a + 1)));
    lemma_apply_fanouts_ids(conns, events.take(a + 1));
    lemma_apply_fanouts_prefix(at_a, events.take(b).skip(a + 1), j);
    assert(pre_b[j].outbox[i1] == events[a].1);

    // Step b appends the second frame strictly after the first.
    lemma_apply_fanouts_split(conns, events.take(b + 1), b);
    assert(events.take(b + 1).take(b) =~~= events.take(b));
    assert(events.take(b + 1).skip(b) =~~= seq![events[b]]);
    lemma_apply_fanouts_one(pre_b, events[b]);
    assert(at_b == fanout_spec(pre_b, events[b].0, events[b].1));
    lemma_apply_fanouts_ids(conns, events.take(b));
    assert(pre_b[j].id == conns[j].id);
    let i2 = pre_b[j].outbox.len() as int;
    assert(at_b[j].outbox == pre_b[j].outbox.push(events[b].1));
    assert(at_b[j].outbox[i2] == events[b].1);
    assert(at_b[j].outbox[i1] == events[a].1);
    assert(i1 < i2);

    // The remaining steps keep both in place.
    lemma_apply_fanouts_split(conns, events, b + 1);
    assert(after == apply_fanouts(at_b, events.skip(b + 1)));
    lemma_apply_fanouts_ids(conns, events.take(b + 1));
    lemma_apply_fanouts_prefix(at_b, events.skip(b + 1), j);
    assert(after[j].outbox[i1] == events[a].1);
    assert(after[j].outbox[i2] == events[b].1);
    assert(i2 < after[j].outbox.len());
}

proof fn lemma_remove_conn_at(conns: Seq<ConnectionView>, id: int, i: int)
    requires
        0 <= i < conns.len(),
        conns[i].id == id,
        forall|j: int| 0 <= j < i ==> #[trigger] conns[j].id != id,
    ensures
        remove_conn(conns, id) == conns.remove(i),
    decreases i,
{
    if i == 0 {
        assert(remove_conn(conns, id) == conns.drop_first());
        assert(conns.drop_first() =~= conns.remove(0));
    } else {
        lemma_remove_conn_at(conns.drop_first(), id, i - 1);
        assert(remove_conn(conns, id) == seq![conns[0]] + conns.drop_first().remove(i - 1));
        assert(seq![conns[0]] + conns.drop_first().remove(i - 1) =~= conns.remove(i));
    }
}

proof fn lemma_remove_conn_absent(conns: Seq<ConnectionView>, id: int)
    requires
        forall|j: int| 0 <= j < conns.len() ==> #[trigger] conns[j].id != id,
    ensures
        remove_conn(conns, id) == conns,
    decreases conns.len(),
{
    if conns.len() > 0 {
        lemma_remove_conn_absent(conns.drop_first(), id);
        assert(seq![conns[0]] + conns.drop_first() =~= conns);
    }
}

proof fn lemma_remove_keeps_wf(pre: HubView, id: int, i: int)
    requires
        pre.wf(),
        0 <= i < pre.conns.len(),
    ensures
        (HubView { conns: pre.conns.remove(i), ..pre }).wf(),
{
}

} // verus!

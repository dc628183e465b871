//! The streaming bridge end to end: a cursor of rows, the production side,
//! the bounded channel and the consumer, stepped one move at a time.

use crate::bridge::{Bridge, BridgeAction, BridgeEvent, BridgeState};
use crate::channel::{Channel, ChannelView, TryRecv, TrySend};
use crate::error::Error;
use std::collections::VecDeque;
use vstd::prelude::*;

verus! {

/// One item of a stream: a row, or the failure that took its place.
pub type Item<T> = Result<T, Error>;

/// A query in flight: the rows that the cursor has yet to yield, the
/// production side with the item it may be waiting to hand over, the
/// channel, and what the consumer has taken so far.
pub struct Pipeline<T> {
    bridge: Bridge,
    cursor: VecDeque<Item<T>>,
    pending: Option<Item<T>>,
    channel: Channel<Item<T>>,
    received: Vec<Item<T>>,
    source: Ghost<Seq<Item<T>>>,
}

/// Everything that a [`Pipeline`] holds, as plain values.
pub struct PipelineView<T> {
    /// The production side.
    pub bridge: Bridge,
    /// The rows that the cursor has yet to yield, next first.
    pub cursor: Seq<Item<T>>,
    /// The item that the production side has offered and the channel has
    /// not yet taken.
    pub pending: Option<Item<T>>,
    /// The channel.
    pub channel: ChannelView<Item<T>>,
    /// What the consumer has taken, oldest first.
    pub received: Seq<Item<T>>,
    /// All the rows of the cursor, as they stood when the query began.
    pub source: Seq<Item<T>>,
}

/// Whether every item of `items` is a row.
pub open spec fn all_rows<T>(items: Seq<Item<T>>) -> bool {
    forall|i: int| 0 <= i < items.len() ==> (#[trigger] items[i]) is Ok
}

impl<T> PipelineView<T> {
    /// The offered item as a sequence of one, or of none.
    pub open spec fn pending_items(self) -> Seq<Item<T>> {
        match self.pending {
            Some(item) => seq![item],
            None => Seq::empty(),
        }
    }

    /// What the channel has taken and still counts: what the consumer
    /// took, then what the channel holds.
    pub open spec fn handed_over(self) -> Seq<Item<T>> {
        self.received + self.channel.queue
    }

    /// Number of items that are in the channel and not yet consumed.
    pub open spec fn in_flight(self) -> nat {
        self.channel.queue.len()
    }

    /// The state of a query that is about to begin.
    pub open spec fn initial(rows: Seq<Item<T>>, capacity: nat) -> PipelineView<T> {
        PipelineView {
            bridge: Bridge { state: BridgeState::Idle, failed: false },
            cursor: rows,
            pending: None,
            channel: ChannelView {
                queue: Seq::empty(),
                capacity,
                sender_open: true,
                receiver_open: true,
            },
            received: Seq::empty(),
            source: rows,
        }
    }

    /// What holds of a query at every moment.
    pub open spec fn inv(self) -> bool {
        &&& self.channel.wf()
        &&& self.bridge.wf()
        &&& (self.bridge.state is Emitting <==> self.pending is Some)
        &&& (self.pending matches Some(item) ==> (item is Err <==> self.bridge.failed))
        &&& (self.channel.sender_open <==> !self.bridge.state.is_terminal())
        &&& self.received.len() <= self.source.len()
        &&& self.received == self.source.take(self.received.len() as int)
        &&& (self.channel.receiver_open ==> self.handed_over() + self.pending_items() + self.cursor
            == self.source)
        &&& (!(self.bridge.state is ErrorTerminated) ==> all_rows(self.handed_over()))
        &&& (forall|i: int|
            0 <= i < self.handed_over().len() - 1 ==> (#[trigger] self.handed_over()[i]) is Ok)
        &&& (self.bridge.state is ErrorTerminated && self.channel.receiver_open
            ==> self.handed_over().len() > 0 && self.handed_over().last() is Err)
        &&& (self.bridge.state is Exhausted ==> self.cursor.len() == 0)
        &&& (self.bridge.state is ConsumerGone ==> !self.channel.receiver_open)
    }

    /// Whether the production side can move: it has not ended, and it is
    /// not held up by a full channel.
    pub open spec fn can_produce(self) -> bool {
        &&& !self.bridge.state.is_terminal()
        &&& !(self.bridge.state is Emitting && self.channel.receiver_open && self.channel.queue.len()
            >= self.channel.capacity)
    }

    /// Whether the consumer can take an item.
    pub open spec fn can_consume(self) -> bool {
        self.channel.queue.len() > 0
    }

    /// The query after one move of the production side: begin; pull a row
    /// and offer it, or end on an empty cursor; hand the offered item to
    /// the channel, or stay where the channel is full, or give up where
    /// nobody is left to receive. A production side that has ended stays.
    pub open spec fn produce_step(self) -> PipelineView<T> {
        match self.bridge.state {
            BridgeState::Idle => PipelineView { bridge: self.bridge.next(BridgeEvent::<T>::Start).0, ..self },
            BridgeState::Fetching => if self.cursor.len() > 0 {
                PipelineView {
                    bridge: match self.cursor[0] {
                        Ok(row) => self.bridge.next(BridgeEvent::Row(row)).0,
                        Err(e) => self.bridge.next(BridgeEvent::<T>::RowFailed(e)).0,
                    },
                    pending: Some(self.cursor[0]),
                    cursor: self.cursor.subrange(1, self.cursor.len() as int),
                    ..self
                }
            } else {
                PipelineView {
                    bridge: self.bridge.next(BridgeEvent::<T>::CursorEnd).0,
                    channel: ChannelView { sender_open: false, ..self.channel },
                    ..self
                }
            },
            BridgeState::Emitting => match self.pending {
                Some(item) => match self.channel.after_send(item).1 {
                    TrySend::Sent => {
                        let bridge = self.bridge.next(BridgeEvent::<T>::Sent).0;
                        PipelineView {
                            bridge,
                            pending: None,
                            channel: ChannelView {
                                sender_open: !bridge.state.is_terminal(),
                                ..self.channel.after_send(item).0
                            },
                            ..self
                        }
                    },
                    TrySend::Full(_) => self,
                    TrySend::Closed(_) => PipelineView {
                        bridge: self.bridge.next(BridgeEvent::<T>::ReceiverGone).0,
                        pending: None,
                        channel: ChannelView { sender_open: false, ..self.channel },
                        ..self
                    },
                },
                None => self,
            },
            _ => self,
        }
    }

    /// The query after the consumer tried to take one item.
    pub open spec fn consume_step(self) -> PipelineView<T> {
        match self.channel.after_recv().1 {
            TryRecv::Item(item) => PipelineView {
                channel: self.channel.after_recv().0,
                received: self.received.push(item),
                ..self
            },
            _ => self,
        }
    }

    /// The query after the consumer has disappeared.
    pub open spec fn disconnect_step(self) -> PipelineView<T> {
        PipelineView {
            channel: ChannelView { queue: Seq::empty(), receiver_open: false, ..self.channel },
            ..self
        }
    }

    /// A bound on the moves that are left: it falls with every move of the
    /// production side and with every item that the consumer takes.
    pub open spec fn fuel(self) -> nat {
        4 * self.cursor.len() + (if self.pending is Some {
            3nat
        } else {
            0nat
        }) + 2 * self.channel.queue.len() + (if self.bridge.state is Idle {
            2nat
        } else {
            0nat
        }) + (if self.bridge.state.is_terminal() {
            0nat
        } else {
            1nat
        })
    }
}

/// One move of a query: of the production side, of the consumer, or the
/// consumer's disappearance.
#[derive(Debug, Clone, Copy, PartialEq, Eq, Structural)]
pub enum Move {
    /// The production side moves, if it can.
    Produce,
    /// The consumer takes an item, if there is one.
    Consume,
    /// The consumer disappears.
    Disconnect,
}

impl<T> PipelineView<T> {
    /// The query after one move.
    pub open spec fn step(self, m: Move) -> PipelineView<T> {
        match m {
            Move::Produce => self.produce_step(),
            Move::Consume => self.consume_step(),
            Move::Disconnect => self.disconnect_step(),
        }
    }

    /// The query after a schedule of moves, the first move first.
    pub open spec fn after(self, moves: Seq<Move>) -> PipelineView<T>
        decreases moves.len(),
    {
        if moves.len() == 0 {
            self
        } else {
            self.after(moves.drop_last()).step(moves.last())
        }
    }
}

/// A query that is about to begin is in order, for any rows and any
/// capacity above zero.
pub proof fn lemma_initial_inv<T>(rows: Seq<Item<T>>, capacity: nat)
    requires
        capacity > 0,
    ensures
        PipelineView::initial(rows, capacity).inv(),
{
    let v = PipelineView::initial(rows, capacity);
    assert(v.received =~= v.source.take(0));
    assert(v.handed_over() + v.pending_items() + v.cursor =~= v.source);
}

/// Backpressure: at every moment of a query the channel holds no more
/// items than its capacity, however many rows the cursor has.
pub proof fn lemma_in_flight_bounded<T>(v: PipelineView<T>)
    requires
        v.inv(),
    ensures
        v.in_flight() <= v.channel.capacity,
{
}

/// Ordering: at every moment what the consumer has taken is a prefix of
/// the cursor's rows, in the cursor's order, and no item after a failure
/// is among them.
pub proof fn lemma_received_in_order<T>(v: PipelineView<T>, i: int)
    requires
        v.inv(),
        0 <= i < v.received.len(),
    ensures
        v.received[i] == v.source[i],
        i < v.received.len() - 1 ==> v.received[i] is Ok,
{
    assert(v.handed_over()[i] == v.received[i]);
}

/// A move of the production side keeps the query in order, leaves what
/// the consumer has taken untouched, and uses up fuel exactly when the
/// production side could move.
pub proof fn lemma_produce_step<T>(v: PipelineView<T>)
    requires
        v.inv(),
    ensures
        v.produce_step().inv(),
        v.produce_step().received == v.received,
        v.produce_step().source == v.source,
        v.produce_step().channel.capacity == v.channel.capacity,
        v.produce_step().channel.receiver_open == v.channel.receiver_open,
        v.can_produce() ==> v.produce_step().fuel() < v.fuel(),
        !v.can_produce() ==> v.produce_step() == v,
{
    let w = v.produce_step();
    match v.bridge.state {
        BridgeState::Idle => {},
        BridgeState::Fetching => {
            if v.cursor.len() > 0 && v.channel.receiver_open {
                assert(w.handed_over() + w.pending_items() + w.cursor =~= v.handed_over()
                    + v.pending_items() + v.cursor);
            }
        },
        BridgeState::Emitting => {
            let item = v.pending->0;
            match v.channel.after_send(item).1 {
                TrySend::Sent => {
                    assert(w.handed_over() =~= v.handed_over().push(item));
                    assert(w.handed_over() + w.pending_items() + w.cursor =~= v.handed_over()
                        + v.pending_items() + v.cursor);
                },
                _ => {},
            }
        },
        _ => {},
    }
}

/// A move of the consumer keeps the query in order and uses up fuel
/// exactly when there was an item to take.
pub proof fn lemma_consume_step<T>(v: PipelineView<T>)
    requires
        v.inv(),
    ensures
        v.consume_step().inv(),
        v.consume_step().source == v.source,
        v.consume_step().bridge == v.bridge,
        v.consume_step().cursor == v.cursor,
        v.consume_step().pending == v.pending,
        v.consume_step().channel.capacity == v.channel.capacity,
        v.consume_step().channel.receiver_open == v.channel.receiver_open,
        v.can_consume() ==> v.consume_step().fuel() < v.fuel(),
        v.can_consume() ==> v.consume_step().received == v.received.push(v.channel.queue[0]),
        !v.can_consume() ==> v.consume_step() == v,
{
    let w = v.consume_step();
    if v.can_consume() {
        assert(v.channel.receiver_open);
        assert(w.handed_over() =~= v.handed_over());
        assert(v.handed_over() + v.pending_items() + v.cursor == v.source);
        assert(v.source[v.received.len() as int] == v.channel.queue[0]) by {
            assert((v.handed_over() + v.pending_items() + v.cursor)[v.received.len() as int]
                == v.channel.queue[0]);
        }
        assert(w.received =~= w.source.take(w.received.len() as int));
    }
}

/// The consumer's disappearance keeps the query in order and changes
/// neither what the consumer has taken nor the production side.
pub proof fn lemma_disconnect_step<T>(v: PipelineView<T>)
    requires
        v.inv(),
    ensures
        v.disconnect_step().inv(),
        v.disconnect_step().received == v.received,
        v.disconnect_step().bridge == v.bridge,
        v.disconnect_step().fuel() <= v.fuel(),
{
    let w = v.disconnect_step();
    assert(w.handed_over() =~= v.received);
    assert forall|i: int| 0 <= i < w.handed_over().len() implies w.handed_over()[i] == v.handed_over()[i] by {}
}


/// Whatever the schedule, a query stays in order: a query that is in
/// order before a sequence of moves is in order after it, with the same
/// rows and the same capacity.
pub proof fn lemma_after_keeps_inv<T>(v: PipelineView<T>, moves: Seq<Move>)
    requires
        v.inv(),
    ensures
        v.after(moves).inv(),
        v.after(moves).source == v.source,
        v.after(moves).channel.capacity == v.channel.capacity,
        v.after(moves).received.len() >= v.received.len(),
        v.after(moves).fuel() <= v.fuel(),
        !v.channel.receiver_open ==> !v.after(moves).channel.receiver_open && v.after(moves).received
            == v.received,
    decreases moves.len(),
{
    if moves.len() > 0 {
        let before = v.after(moves.drop_last());
        lemma_after_keeps_inv(v, moves.drop_last());
        lemma_produce_step(before);
        lemma_consume_step(before);
        lemma_disconnect_step(before);
    }
}

/// Backpressure and order under every schedule: however many rows the
/// cursor has, whatever the capacity and however the moves of the two
/// sides fall, the channel never holds more items than its capacity, and
/// what the consumer has received is a prefix of the cursor's rows in the
/// cursor's order.
pub proof fn lemma_every_schedule<T>(rows: Seq<Item<T>>, capacity: nat, moves: Seq<Move>)
    requires
        capacity > 0,
    ensures
        PipelineView::initial(rows, capacity).after(moves).in_flight() <= capacity,
        PipelineView::initial(rows, capacity).after(moves).received.len() <= rows.len(),
        PipelineView::initial(rows, capacity).after(moves).received == rows.take(
            PipelineView::initial(rows, capacity).after(moves).received.len() as int,
        ),
{
    lemma_initial_inv(rows, capacity);
    lemma_after_keeps_inv(PipelineView::initial(rows, capacity), moves);
}

/// Consumer disconnection under every schedule: once the consumer has
/// disappeared nothing more is delivered, whatever moves follow, and the
/// production side, where it still has an item to offer, ends as
/// `ConsumerGone` on its next attempt to send.
pub proof fn lemma_nothing_after_disconnect<T>(v: PipelineView<T>, moves: Seq<Move>)
    requires
        v.inv(),
    ensures
        v.disconnect_step().after(moves).received == v.received,
        v.disconnect_step().after(moves).in_flight() == 0,
        v.pending is Some ==> v.disconnect_step().produce_step().bridge.state is ConsumerGone,
{
    lemma_disconnect_step(v);
    lemma_after_keeps_inv(v.disconnect_step(), moves);
}

impl<T> View for Pipeline<T> {
    type V = PipelineView<T>;

    closed spec fn view(&self) -> PipelineView<T> {
        PipelineView {
            bridge: self.bridge,
            cursor: self.cursor@,
            pending: self.pending,
            channel: self.channel@,
            received: self.received@,
            source: self.source@,
        }
    }
}

impl<T> Pipeline<T> {
    /// A query over `rows` through a channel of `capacity` items, about to begin.
    pub fn new(rows: Vec<Item<T>>, capacity: usize) -> (pipeline: Pipeline<T>)
        requires
            capacity > 0,
        ensures
            pipeline@ == PipelineView::initial(rows@, capacity as nat),
            pipeline@.inv(),
    {
        let ghost source = rows@;
        let mut rows = rows;
        let mut cursor: VecDeque<Item<T>> = VecDeque::new();
        while rows.len() > 0
            invariant
                rows@ + cursor@ == source,
            decreases rows.len(),
        {
            let ghost before = rows@;
            let ghost front = cursor@;
            match rows.pop() {
                Some(item) => {
                    cursor.push_front(item);
                    assert(rows@ + cursor@ =~= before + front) by {
                        assert(rows@ =~= before.drop_last());
                    }
                },
                None => {},
            }
        }
        assert(cursor@ =~= source);
        let pipeline = Pipeline {
            bridge: Bridge::new(),
            cursor,
            pending: None,
            channel: Channel::new(capacity),
            received: Vec::new(),
            source: Ghost(source),
        };
        proof {
            assert(pipeline@.received =~= Seq::<Item<T>>::empty());
            assert(pipeline@ == PipelineView::initial(source, capacity as nat));
            lemma_initial_inv(source, capacity as nat);
        }
        pipeline
    }

    /// Where the production side stands.
    pub fn state(&self) -> (state: BridgeState)
        ensures
            state == self@.bridge.state,
    {
        self.bridge.state()
    }

    /// Number of items that are in the channel and not yet consumed.
    pub fn in_flight(&self) -> (n: usize)
        requires
            self@.inv(),
        ensures
            n == self@.in_flight(),
            n <= self@.channel.capacity,
    {
        self.channel.len()
    }

    /// What the consumer has taken so far, oldest first.
    pub fn received(&self) -> (items: &Vec<Item<T>>)
        ensures
            items@ == self@.received,
    {
        &self.received
    }

    /// Number of rows that the cursor has yet to yield.
    pub fn remaining(&self) -> (n: usize)
        ensures
            n == self@.cursor.len(),
    {
        self.cursor.len()
    }

    /// Makes one move of the production side and says whether it could move.
    pub fn produce(&mut self) -> (moved: bool)
        requires
            old(self)@.inv(),
        ensures
            final(self)@ == old(self)@.produce_step(),
            final(self)@.inv(),
            moved == old(self)@.can_produce(),
    {
        proof {
            lemma_produce_step(self@);
        }
        match self.bridge.state() {
            BridgeState::Idle => {
                let _ = self.bridge.step(BridgeEvent::<T>::Start);
                true
            },
            BridgeState::Fetching => {
                let ghost rows = self.cursor@;
                match self.cursor.pop_front() {
                    Some(Ok(row)) => {
                        match self.bridge.step(BridgeEvent::Row(row)) {
                            Some(BridgeAction::Emit(item)) => {
                                self.pending = Some(item);
                            },
                            _ => {},
                        }
                    },
                    Some(Err(e)) => {
                        match self.bridge.step(BridgeEvent::<T>::RowFailed(e)) {
                            Some(BridgeAction::Emit(item)) => {
                                self.pending = Some(item);
                            },
                            _ => {},
                        }
                    },
                    None => {
                        let _ = self.bridge.step(BridgeEvent::<T>::CursorEnd);
                        self.channel.close_sender();
                    },
                }
                true
            },
            BridgeState::Emitting => {
                match self.pending.take() {
                    Some(item) => match self.channel.try_send(item) {
                        TrySend::Sent => {
                            match self.bridge.step(BridgeEvent::<T>::Sent) {
                                Some(BridgeAction::Close) => {
                                    self.channel.close_sender();
                                },
                                _ => {},
                            }
                            true
                        },
                        TrySend::Full(item) => {
                            self.pending = Some(item);
                            false
                        },
                        TrySend::Closed(_) => {
                            let _ = self.bridge.step(BridgeEvent::<T>::ReceiverGone);
                            self.channel.close_sender();
                            true
                        },
                    },
                    None => false,
                }
            },
            _ => false,
        }
    }

    /// Lets the consumer take one item, if the channel holds one, and says
    /// whether it did.
    pub fn consume(&mut self) -> (took: bool)
        requires
            old(self)@.inv(),
        ensures
            final(self)@ == old(self)@.consume_step(),
            final(self)@.inv(),
            took == old(self)@.can_consume(),
    {
        proof {
            lemma_consume_step(self@);
        }
        match self.channel.try_recv() {
            TryRecv::Item(item) => {
                self.received.push(item);
                true
            },
            _ => false,
        }
    }

    /// Makes the consumer disappear: what the channel holds is dropped and
    /// nothing more will be received.
    pub fn disconnect(&mut self)
        requires
            old(self)@.inv(),
        ensures
            final(self)@ == old(self)@.disconnect_step(),
            final(self)@.inv(),
    {
        proof {
            lemma_disconnect_step(self@);
        }
        self.channel.drop_receiver();
    }

    /// Makes one move and says whether the side that moved could move:
    /// the production side, the consumer, or a consumer that was still
    /// there to disappear.
    pub fn apply(&mut self, m: Move) -> (moved: bool)
        requires
            old(self)@.inv(),
        ensures
            final(self)@ == old(self)@.step(m),
            final(self)@.inv(),
            moved == match m {
                Move::Produce => old(self)@.can_produce(),
                Move::Consume => old(self)@.can_consume(),
                Move::Disconnect => old(self)@.channel.receiver_open,
            },
    {
        match m {
            Move::Produce => self.produce(),
            Move::Consume => self.consume(),
            Move::Disconnect => {
                let was_open = self.channel.receiver_open();
                self.disconnect();
                was_open
            },
        }
    }

    /// Runs the query to its end with a consumer that keeps draining: the
    /// production side moves whenever it can, and the consumer takes an
    /// item whenever the production side cannot. The query ends with
    /// nothing left in the channel; every row of the cursor has been
    /// received, in the cursor's order, unless a row failed, and then the
    /// failure is the last item received.
    pub fn drain(&mut self)
        requires
            old(self)@.inv(),
            old(self)@.channel.receiver_open,
        ensures
            final(self)@.inv(),
            final(self)@.source == old(self)@.source,
            final(self)@.channel.receiver_open,
            final(self)@.in_flight() == 0,
            final(self)@.pending is None,
            final(self)@.bridge.state is Exhausted || final(self)@.bridge.state is ErrorTerminated,
            final(self)@.bridge.state is Exhausted ==> final(self)@.received == final(self)@.source,
            final(self)@.bridge.state is ErrorTerminated ==> final(self)@.received.len() > 0
                && final(self)@.received.last() is Err,
            all_rows(old(self)@.source) ==> final(self)@.received == old(self)@.source,
    {
        loop
            invariant
                self@.inv(),
                self@.channel.receiver_open,
                self@.source == old(self)@.source,
            ensures
                self@.inv(),
                self@.channel.receiver_open,
                self@.source == old(self)@.source,
                !self@.can_produce(),
                !self@.can_consume(),
            decreases self@.fuel(),
        {
            proof {
                lemma_produce_step(self@);
            }
            let moved = self.produce();
            if !moved {
                proof {
                    lemma_consume_step(self@);
                }
                let took = self.consume();
                if !took {
                    break ;
                }
            }
        }
        proof {
            let v = self@;
            assert(v.handed_over() =~= v.received);
            assert(v.handed_over() + v.pending_items() + v.cursor =~= v.received + v.cursor);
            if v.bridge.state is Exhausted {
                assert(v.received + v.cursor =~= v.received);
            }
            if v.bridge.state is ErrorTerminated && all_rows(v.source) {
                let last = v.received.len() - 1;
                assert(v.received[last] == v.source[last]);
            }
        }
    }

    /// Makes the consumer disappear and lets the production side run on
    /// until it stops. It always stops: nothing more is delivered, and
    /// where it still had a row to offer it ends as `ConsumerGone` on its
    /// next attempt to send, not on a failure and not with the cursor
    /// read to its end.
    pub fn hang_up(&mut self)
        requires
            old(self)@.inv(),
        ensures
            final(self)@.inv(),
            final(self)@.source == old(self)@.source,
            final(self)@.received == old(self)@.received,
            !final(self)@.channel.receiver_open,
            final(self)@.in_flight() == 0,
            final(self)@.bridge.state.is_terminal(),
            old(self)@.bridge.state.is_terminal() ==> final(self)@.bridge == old(self)@.bridge,
            final(self)@.bridge.state is ErrorTerminated ==> old(self)@.bridge.state is ErrorTerminated,
            (!old(self)@.bridge.state.is_terminal() && (old(self)@.pending is Some
                || old(self)@.cursor.len() > 0)) ==> final(self)@.bridge.state is ConsumerGone,
    {
        self.disconnect();
        let ghost gives_up = !old(self)@.bridge.state.is_terminal() && (old(self)@.pending is Some
            || old(self)@.cursor.len() > 0);
        loop
            invariant
                self@.inv(),
                !self@.channel.receiver_open,
                self@.source == old(self)@.source,
                self@.received == old(self)@.received,
                old(self)@.bridge.state.is_terminal() ==> self@.bridge == old(self)@.bridge,
                self@.bridge.state is ErrorTerminated ==> old(self)@.bridge.state is ErrorTerminated,
                gives_up ==> (self@.bridge.state is ConsumerGone || (!self@.bridge.state.is_terminal()
                    && (self@.pending is Some || self@.cursor.len() > 0))),
            ensures
                self@.inv(),
                !self@.channel.receiver_open,
                self@.source == old(self)@.source,
                self@.received == old(self)@.received,
                old(self)@.bridge.state.is_terminal() ==> self@.bridge == old(self)@.bridge,
                self@.bridge.state is ErrorTerminated ==> old(self)@.bridge.state is ErrorTerminated,
                gives_up ==> self@.bridge.state is ConsumerGone,
                self@.bridge.state.is_terminal(),
            decreases self@.fuel(),
        {
            proof {
                lemma_produce_step(self@);
            }
            let moved = self.produce();
            if !moved {
                break ;
            }
        }
    }
}

} // verus!

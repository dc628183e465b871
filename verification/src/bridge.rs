//! The production side of the streaming bridge as a state machine: from
//! the state and what the outside reported to the next state and what to
//! do next.

use crate::error::Error;
use vstd::prelude::*;

verus! {

/// Where the production side stands.
#[derive(Debug, Clone, Copy, PartialEq, Eq, Structural)]
pub enum BridgeState {
    /// Production has not begun.
    Idle,
    /// The next row has been asked of the cursor.
    Fetching,
    /// An item has been offered to the channel.
    Emitting,
    /// The cursor ran out: the stream ended cleanly.
    Exhausted,
    /// A row failed and the failure was handed on: the stream ended early.
    ErrorTerminated,
    /// Nobody was left to receive: the stream was abandoned.
    ConsumerGone,
}

/// What the outside reports to the production side.
#[derive(Debug, Clone, PartialEq, Eq)]
pub enum BridgeEvent<T> {
    /// Production is to begin.
    Start,
    /// The cursor yielded a row.
    Row(T),
    /// The cursor yielded a failure in place of a row.
    RowFailed(Error),
    /// The cursor has no more rows.
    CursorEnd,
    /// The channel took the offered item.
    Sent,
    /// The offered item found nobody to receive it.
    ReceiverGone,
}

/// What the production side does next.
#[derive(Debug, PartialEq, Eq)]
pub enum BridgeAction<T> {
    /// Ask the cursor for its next row.
    Pull,
    /// Offer the item to the channel, waiting while the channel is full.
    Emit(Result<T, Error>),
    /// Close the channel and stop.
    Close,
}

/// The production side of one query: its state, and whether the item it
/// last offered was a failure.
#[derive(Debug, Clone, Copy, PartialEq, Eq, Structural)]
pub struct Bridge {
    pub state: BridgeState,
    pub failed: bool,
}

impl BridgeState {
    /// Whether the state is one of the three in which production has ended.
    pub open spec fn is_terminal(self) -> bool {
        self is Exhausted || self is ErrorTerminated || self is ConsumerGone
    }

    /// Whether the state is one of the three in which production has ended.
    pub fn terminal(&self) -> (b: bool)
        ensures
            b == self.is_terminal(),
    {
        match self {
            BridgeState::Exhausted | BridgeState::ErrorTerminated | BridgeState::ConsumerGone => true,
            _ => false,
        }
    }
}

impl Bridge {
    /// Whether the failure mark agrees with the state: a failure has been
    /// offered only while it is being emitted or once the stream has ended
    /// on it or was abandoned.
    pub open spec fn wf(self) -> bool {
        &&& self.failed ==> (self.state is Emitting || self.state is ErrorTerminated
            || self.state is ConsumerGone)
        &&& self.state is ErrorTerminated ==> self.failed
    }

    /// The state after `event` and the action that it calls for; no action
    /// and no change where the state does not await the event.
    pub open spec fn next<T>(self, event: BridgeEvent<T>) -> (Bridge, Option<BridgeAction<T>>) {
        match (self.state, event) {
            (BridgeState::Idle, BridgeEvent::Start) => (
                Bridge { state: BridgeState::Fetching, failed: false },
                Some(BridgeAction::Pull),
            ),
            (BridgeState::Fetching, BridgeEvent::Row(row)) => (
                Bridge { state: BridgeState::Emitting, failed: false },
                Some(BridgeAction::Emit(Ok(row))),
            ),
            (BridgeState::Fetching, BridgeEvent::RowFailed(e)) => (
                Bridge { state: BridgeState::Emitting, failed: true },
                Some(BridgeAction::Emit(Err(e))),
            ),
            (BridgeState::Fetching, BridgeEvent::CursorEnd) => (
                Bridge { state: BridgeState::Exhausted, failed: false },
                Some(BridgeAction::Close),
            ),
            (BridgeState::Emitting, BridgeEvent::Sent) => if self.failed {
                (Bridge { state: BridgeState::ErrorTerminated, failed: true }, Some(BridgeAction::Close))
            } else {
                (Bridge { state: BridgeState::Fetching, failed: false }, Some(BridgeAction::Pull))
            },
            (BridgeState::Emitting, BridgeEvent::ReceiverGone) => (
                Bridge { state: BridgeState::ConsumerGone, failed: self.failed },
                Some(BridgeAction::Close),
            ),
            _ => (self, None),
        }
    }

    /// A production side that has not begun.
    pub fn new() -> (bridge: Bridge)
        ensures
            bridge == (Bridge { state: BridgeState::Idle, failed: false }),
            bridge.wf(),
    {
        Bridge { state: BridgeState::Idle, failed: false }
    }

    /// Where the production side stands.
    pub fn state(&self) -> (state: BridgeState)
        ensures
            state == self.state,
    {
        self.state
    }

    /// Takes in what the outside reported: moves to the next state and says
    /// what to do next, or stays and says nothing where the state does not
    /// await the event.
    pub fn step<T>(&mut self, event: BridgeEvent<T>) -> (action: Option<BridgeAction<T>>)
        ensures
            (*final(self), action) == old(self).next(event),
            old(self).wf() ==> final(self).wf(),
    {
        match self.state {
            BridgeState::Idle => match event {
                BridgeEvent::Start => {
                    self.state = BridgeState::Fetching;
                    self.failed = false;
                    Some(BridgeAction::Pull)
                },
                _ => None,
            },
            BridgeState::Fetching => match event {
                BridgeEvent::Row(row) => {
                    self.state = BridgeState::Emitting;
                    self.failed = false;
                    Some(BridgeAction::Emit(Ok(row)))
                },
                BridgeEvent::RowFailed(e) => {
                    self.state = BridgeState::Emitting;
                    self.failed = true;
                    Some(BridgeAction::Emit(Err(e)))
                },
                BridgeEvent::CursorEnd => {
                    self.state = BridgeState::Exhausted;
                    self.failed = false;
                    Some(BridgeAction::Close)
                },
                _ => None,
            },
            BridgeState::Emitting => match event {
                BridgeEvent::Sent => {
                    if self.failed {
                        self.state = BridgeState::ErrorTerminated;
                        Some(BridgeAction::Close)
                    } else {
                        self.state = BridgeState::Fetching;
                        Some(BridgeAction::Pull)
                    }
                },
                BridgeEvent::ReceiverGone => {
                    self.state = BridgeState::ConsumerGone;
                    Some(BridgeAction::Close)
                },
                _ => None,
            },
            _ => None,
        }
    }
}

/// The three final states are absorbing: whatever is reported to a
/// production side that has ended, it stays where it is and does nothing.
pub proof fn lemma_terminal_absorbing<T>(bridge: Bridge, event: BridgeEvent<T>)
    requires
        bridge.state.is_terminal(),
    ensures
        bridge.next(event) == (bridge, None::<BridgeAction<T>>),
{
}

/// Production ends exactly when it is told to close: a step calls for
/// closing the channel if and only if it enters one of the three final
/// states, so each query ends on one condition and only once.
pub proof fn lemma_close_iff_terminal<T>(bridge: Bridge, event: BridgeEvent<T>)
    ensures
        bridge.next(event).1 == Some(BridgeAction::<T>::Close) <==> (!bridge.state.is_terminal()
            && bridge.next(event).0.state.is_terminal()),
{
}

/// Nothing is pulled after a failure: once a failed row has been offered,
/// no later step asks the cursor for another row.
pub proof fn lemma_no_pull_after_failure<T>(bridge: Bridge, event: BridgeEvent<T>)
    requires
        bridge.wf(),
        bridge.failed,
    ensures
        bridge.next(event).1 != Some(BridgeAction::<T>::Pull),
        bridge.next(event).0.failed,
{
}

/// An item is offered exactly as the cursor yielded it: a row as a
/// success, a failure as a failure, and nothing else is ever offered.
pub proof fn lemma_emits_what_was_pulled<T>(bridge: Bridge, event: BridgeEvent<T>, item: Result<T, Error>)
    requires
        bridge.next(event).1 == Some(BridgeAction::Emit(item)),
    ensures
        bridge.state is Fetching,
        match item {
            Ok(row) => event == BridgeEvent::Row(row),
            Err(e) => event == BridgeEvent::<T>::RowFailed(e),
        },
{
}

} // verus!

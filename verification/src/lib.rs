//! The Journey: one line of execution, and the record of what happened on it.
//!
//! A Journey accumulates entries, Message generations and state transitions.
//! Its historical record is appended to and never rewritten.

pub mod chain;
pub mod ids;
pub mod text;

pub use chain::{ChainCause, ChainLimit, ChainRefused};
pub use ids::{ExecutionId, JourneyId, MessageId, StreamId};

use vstd::prelude::*;

verus! {

/// The operational state of a Journey.
///
/// Three of these are terminal: `Completed`, `Failed` and `Dismissed`. A
/// Journey that failed hit something it could not get past; one that was
/// dismissed was stopped by a decision.
#[derive(Clone, Copy, Debug, PartialEq, Eq, Structural)]
pub enum JourneyState {
    Active,
    Waiting,
    Suspended,
    Recovering,
    Completed,
    Failed,
    Dismissed,
}

impl JourneyState {
    /// The Journey has stopped for good.
    pub open spec fn terminal(self) -> bool {
        self is Completed || self is Failed || self is Dismissed
    }

    /// The Journey stopped without completing its work.
    pub open spec fn incomplete(self) -> bool {
        self is Failed || self is Dismissed
    }

    /// Whether the Journey has stopped for good.
    ///
    /// `Suspended` is not terminal: an operator can resume it. Nor is
    /// `Recovering`: a Retry is in flight.
    #[must_use]
    pub fn is_terminal(self) -> (terminal: bool)
        ensures
            terminal == self.terminal(),
    {
        match self {
            JourneyState::Completed | JourneyState::Failed | JourneyState::Dismissed => true,
            _ => false,
        }
    }

    /// Whether the Journey stopped without completing its work.
    ///
    /// `Failed` and `Dismissed` both answer yes.
    #[must_use]
    pub fn is_incomplete(self) -> (incomplete: bool)
        ensures
            incomplete == self.incomplete(),
    {
        match self {
            JourneyState::Failed | JourneyState::Dismissed => true,
            _ => false,
        }
    }

    /// A Journey that stopped without completing its work has stopped for
    /// good; `Completed` is the one terminal state that is not incomplete.
    pub proof fn lemma_incomplete_is_terminal(self)
        ensures
            self.incomplete() ==> self.terminal(),
            self.terminal() && !self.incomplete() <==> self is Completed,
    {
    }
}

/// One thing that happened, in order.
#[derive(Clone, Debug, PartialEq, Eq)]
pub struct JourneyEntry {
    pub execution_id: ExecutionId,
    pub message_id: MessageId,
    pub action: String,
    pub outcome: String,
    pub timestamp_unix_nanos: i128,
}

/// One Message generation this Journey has held.
#[derive(Clone, Copy, Debug, PartialEq, Eq, Structural)]
pub struct JourneyMessageRef {
    pub message_id: MessageId,
    pub stream_id: StreamId,
}

/// One line of execution. Not a tree.
#[derive(Clone, Debug, PartialEq, Eq)]
pub struct Journey {
    pub journey_id: JourneyId,
    pub state: JourneyState,
    /// The Journey this one came from, if any. Several may share one.
    pub previous_journey_id: Option<JourneyId>,
    /// Why this Journey exists, where something caused it.
    pub cause: Option<ChainCause>,
    /// How many links back to a Journey that nothing caused.
    pub depth: u32,
    pub current_xmip_process: Option<String>,
    pub entries: Vec<JourneyEntry>,
    pub messages: Vec<JourneyMessageRef>,
}

impl Journey {
    /// The chain fields agree: a Journey names a predecessor exactly when it
    /// names a cause, one that nothing caused is at depth zero, and one that
    /// something caused is at least one link deep.
    pub open spec fn well_formed(self) -> bool {
        &&& (self.previous_journey_id is Some) == (self.cause is Some)
        &&& (self.previous_journey_id is None) == (self.depth == 0)
    }

    /// A Journey with no history and no predecessor.
    #[must_use]
    pub fn new(journey_id: JourneyId) -> (journey: Self)
        ensures
            journey.journey_id == journey_id,
            journey.state == JourneyState::Active,
            journey.previous_journey_id is None,
            journey.cause is None,
            journey.depth == 0,
            journey.current_xmip_process is None,
            journey.entries@ == Seq::<JourneyEntry>::empty(),
            journey.messages@ == Seq::<JourneyMessageRef>::empty(),
            journey.well_formed(),
    {
        Self {
            journey_id,
            state: JourneyState::Active,
            previous_journey_id: None,
            cause: None,
            depth: 0,
            current_xmip_process: None,
            entries: Vec::new(),
            messages: Vec::new(),
        }
    }

    /// A Journey caused by another, or the refusal that says why not.
    ///
    /// This is the only way a publication chain grows. The refusal is a value
    /// and not a panic: the Message that would have started the next Journey
    /// is not lost by declining to start it.
    ///
    /// # Errors
    ///
    /// [`ChainRefused`] when `previous` is already at the limit, naming the
    /// Subscription and the Xmip Process that would have formed the next link.
    /// The refusal's depth is the limit in force.
    pub fn following(journey_id: JourneyId, previous: &Self, cause: ChainCause, limit: ChainLimit)
        -> (result: Result<Self, ChainRefused>)
        ensures
            result is Ok <==> limit.allows(previous.depth),
            result matches Ok(journey) ==> {
                &&& journey.journey_id == journey_id
                &&& journey.state == JourneyState::Active
                &&& journey.previous_journey_id == Some(previous.journey_id)
                &&& journey.cause == Some(cause)
                &&& journey.depth == previous.depth + 1
                &&& journey.depth <= limit@
                &&& journey.current_xmip_process is None
                &&& journey.entries@ == Seq::<JourneyEntry>::empty()
                &&& journey.messages@ == Seq::<JourneyMessageRef>::empty()
                &&& journey.well_formed()
            },
            result matches Err(refused) ==> {
                &&& refused.limit == limit
                &&& refused.depth == limit@
                &&& refused.previous_journey_id == previous.journey_id
                &&& refused.cause == cause
            },
    {
        if !limit.permits(previous.depth) {
            return Err(ChainRefused {
                limit,
                depth: limit.links(),
                previous_journey_id: previous.journey_id,
                cause,
            });
        }
        let mut journey = Self::new(journey_id);
        journey.previous_journey_id = Some(previous.journey_id);
        journey.cause = Some(cause);
        journey.depth = previous.depth + 1;
        Ok(journey)
    }

    /// Append what happened and move to the state it left the Journey in.
    ///
    /// The entries already recorded stay as they were, in order.
    #[must_use]
    pub fn append(self, entry: JourneyEntry, state: JourneyState) -> (journey: Self)
        ensures
            journey.entries@ == self.entries@.push(entry),
            journey.state == state,
            journey.journey_id == self.journey_id,
            journey.previous_journey_id == self.previous_journey_id,
            journey.cause == self.cause,
            journey.depth == self.depth,
            journey.current_xmip_process == self.current_xmip_process,
            journey.messages@ == self.messages@,
            self.well_formed() ==> journey.well_formed(),
    {
        let mut journey = self;
        journey.entries.push(entry);
        journey.state = state;
        journey
    }

    /// Record a Message generation this Journey now holds.
    ///
    /// The generations already recorded stay as they were, in order.
    #[must_use]
    pub fn holding(self, message: JourneyMessageRef) -> (journey: Self)
        ensures
            journey.messages@ == self.messages@.push(message),
            journey.state == self.state,
            journey.journey_id == self.journey_id,
            journey.previous_journey_id == self.previous_journey_id,
            journey.cause == self.cause,
            journey.depth == self.depth,
            journey.current_xmip_process == self.current_xmip_process,
            journey.entries@ == self.entries@,
            self.well_formed() ==> journey.well_formed(),
    {
        let mut journey = self;
        journey.messages.push(message);
        journey
    }
}

} // verus!

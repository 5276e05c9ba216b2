//! The dispatcher: serialized access to the shared middleware handle.
//!
//! The process owns exactly one middleware node handle, and only one logical
//! operation may run against it at a time: either publishing one translated
//! command for an incoming request, or servicing one tick of the middleware's
//! event loop. The [`Dispatcher`] models the owner of that handle: callers
//! submit events in the order exclusive access is granted, and each event
//! yields the one action the holder performs before the next event is served.
//! The surrounding process performs the actions (the publish call, the
//! service tick) against the real handle.

use vstd::prelude::*;

use crate::command::{CommandAck, ExternalCommand, InternalCommand, translate, translate_spec};

verus! {

/// One turn of exclusive access to the shared node handle.
#[derive(Clone, Copy, Debug, PartialEq)]
pub enum Event {
    /// An incoming velocity command whose turn to publish has come.
    Request(ExternalCommand),
    /// The periodic servicing duty's turn.
    Tick,
}

/// What the holder of the handle does during one turn.
#[derive(Clone, Copy, Debug, PartialEq)]
pub enum Action {
    /// Publish this command on the outbound topic, exactly once.
    Publish(InternalCommand),
    /// Service one bounded tick of the middleware's event loop.
    Service,
}

/// The action owed for an event: a request publishes its translation, a tick
/// services the event loop. Nothing else ever touches the handle.
pub open spec fn action_for(event: Event) -> Action {
    match event {
        Event::Request(request) => Action::Publish(translate_spec(request)),
        Event::Tick => Action::Service,
    }
}

/// The requests among a run of events, in the order access was granted.
pub open spec fn requests_of(events: Seq<Event>) -> Seq<ExternalCommand>
    decreases events.len(),
{
    if events.len() == 0 {
        Seq::empty()
    } else {
        match events.last() {
            Event::Request(request) => requests_of(events.drop_last()).push(request),
            Event::Tick => requests_of(events.drop_last()),
        }
    }
}

/// The commands published over a run of events, in the order access was
/// granted.
pub open spec fn publishes_of(events: Seq<Event>) -> Seq<InternalCommand>
    decreases events.len(),
{
    if events.len() == 0 {
        Seq::empty()
    } else {
        match events.last() {
            Event::Request(request) => publishes_of(events.drop_last()).push(
                translate_spec(request),
            ),
            Event::Tick => publishes_of(events.drop_last()),
        }
    }
}

/// The translations of a run of requests, in order.
pub open spec fn translations_of(requests: Seq<ExternalCommand>) -> Seq<InternalCommand> {
    requests.map_values(|request: ExternalCommand| translate_spec(request))
}

/// The owner of the shared node handle. It serves one event per turn and
/// remembers, as ghost state, the order in which it served them.
pub struct Dispatcher {
    pub events: Ghost<Seq<Event>>,
}

impl Dispatcher {
    /// The events served so far, in the order exclusive access was granted.
    pub open spec fn history(self) -> Seq<Event> {
        self.events@
    }

    /// The commands published so far, in order.
    pub open spec fn published(self) -> Seq<InternalCommand> {
        publishes_of(self.history())
    }

    /// A fresh dispatcher that has served nothing and published nothing.
    pub fn new() -> (dispatcher: Dispatcher)
        ensures
            dispatcher.history() == Seq::<Event>::empty(),
            dispatcher.published() == Seq::<InternalCommand>::empty(),
    {
        Dispatcher { events: Ghost(Seq::empty()) }
    }

    /// Serve one turn of exclusive access: record the event and return the
    /// one action owed for it. A request appends exactly its translation to
    /// the published sequence; a tick publishes nothing.
    pub fn step(&mut self, event: Event) -> (action: Action)
        ensures
            action == action_for(event),
            final(self).history() == old(self).history().push(event),
            event matches Event::Request(request) ==> final(self).published() == old(
                self,
            ).published().push(translate_spec(request)),
            event matches Event::Tick ==> final(self).published() == old(self).published(),
    {
        proof {
            assert(self.events@.push(event).drop_last() =~= self.events@);
        }
        self.events = Ghost(self.events@.push(event));
        match event {
            Event::Request(request) => Action::Publish(translate(request)),
            Event::Tick => Action::Service,
        }
    }
}

/// The acknowledgment owed for one publish attempt: success exactly when the
/// middleware reported none of its errors. A failed publish is answered, not
/// crashed on, so the handling of later requests goes on.
pub fn acknowledge(publish_succeeded: bool) -> (ack: CommandAck)
    ensures
        ack.success == publish_succeeded,
{
    CommandAck { success: publish_succeeded }
}

/// Ordering law: over any run of events, the commands published are exactly
/// the translations of the requests, in the order exclusive access was
/// granted. Turns do not interleave, so no merged or partial command can
/// appear on the topic.
pub proof fn lemma_publish_order(events: Seq<Event>)
    ensures
        publishes_of(events) == translations_of(requests_of(events)),
    decreases events.len(),
{
    if events.len() == 0 {
        assert(publishes_of(events) =~= translations_of(requests_of(events)));
    } else {
        lemma_publish_order(events.drop_last());
        assert(publishes_of(events) =~= translations_of(requests_of(events)));
    }
}

} // verus!

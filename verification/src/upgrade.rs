//! Sending a request over a freshly opened stream, one decision at a time.
//!
//! The caller owns the stream and does the input and output. After each
//! thing that happens it asks [`OutboundRequestContainer::upgrade_step`]
//! what to do next. The stream is handed back for reading only after the
//! request has gone out as one frame and the write half has been closed, in
//! that order; any failure on the way ends the attempt.

use crate::methods::RPCError;
use crate::outbound::OutboundRequestContainer;
use crate::protocol::ProtocolId;
use vstd::prelude::*;
use vstd::string::*;

verus! {

/// How far the sending of a request has come.
#[derive(Debug, Clone, Copy, PartialEq, Eq, Structural)]
pub enum UpgradeState {
    /// The stream is open and nothing has been written.
    Idle,
    /// The request is being written as one frame.
    Sending,
    /// The frame is out and the write half is being closed.
    HalfClosed,
    /// The write half is closed and the stream is with the caller.
    Complete,
    /// The attempt has ended with an error and the stream is discarded.
    Failed(RPCError),
}

/// What has happened on the stream.
#[derive(Debug, PartialEq, Eq)]
pub enum UpgradeEvent {
    /// The protocol-selection handshake has returned this identifier.
    Negotiated(String),
    /// The handshake has found no wire variant that both sides accept.
    NegotiationFailed,
    /// The request has been written as one frame and flushed.
    FrameWritten,
    /// The codec could not put the request into a frame.
    FrameRejected,
    /// Writing the frame or flushing it failed.
    WriteFailed,
    /// The write half has been closed.
    WriteClosed,
    /// Closing the write half failed.
    CloseFailed,
}

/// What the owner of the stream is to do next.
#[derive(Debug, Clone, Copy, PartialEq, Eq, Structural)]
pub enum UpgradeAction {
    /// Wrap the stream in the framing of the protocol's encoding, with the
    /// given limit on the size of a frame, write the request as one frame
    /// and flush.
    SendFrame { protocol: ProtocolId, max_rpc_size: usize },
    /// Close the write half and leave the read half open.
    CloseWrite,
    /// Hand the stream to the caller, who reads the responses from it.
    HandBack,
    /// Discard the stream and report the error.
    Abort(RPCError),
    /// Nothing: the state does not await the event.
    Ignore,
}

impl Clone for UpgradeEvent {
    fn clone(&self) -> (event: UpgradeEvent)
        ensures
            event == *self,
    {
        match self {
            UpgradeEvent::Negotiated(identifier) => UpgradeEvent::Negotiated(identifier.clone()),
            UpgradeEvent::NegotiationFailed => UpgradeEvent::NegotiationFailed,
            UpgradeEvent::FrameWritten => UpgradeEvent::FrameWritten,
            UpgradeEvent::FrameRejected => UpgradeEvent::FrameRejected,
            UpgradeEvent::WriteFailed => UpgradeEvent::WriteFailed,
            UpgradeEvent::WriteClosed => UpgradeEvent::WriteClosed,
            UpgradeEvent::CloseFailed => UpgradeEvent::CloseFailed,
        }
    }
}

impl UpgradeState {
    /// Whether nothing can follow the state.
    pub open spec fn terminal(self) -> bool {
        self is Complete || self is Failed
    }

    /// Whether nothing can follow the state.
    pub fn is_terminal(&self) -> (terminal: bool)
        ensures
            terminal == self.terminal(),
    {
        match self {
            UpgradeState::Idle => false,
            UpgradeState::Sending => false,
            UpgradeState::HalfClosed => false,
            UpgradeState::Complete => true,
            UpgradeState::Failed(_) => true,
        }
    }
}

/// Whether the candidate at `i` is the first one that `identifier` names.
pub open spec fn first_named(candidates: Seq<ProtocolId>, identifier: Seq<char>, i: int) -> bool {
    &&& 0 <= i < candidates.len()
    &&& candidates[i].identifier() == identifier
    &&& forall|j: int| 0 <= j < i ==> candidates[j].identifier() != identifier
}

/// The first of the candidates that `identifier` names, if it names any.
pub open spec fn agreed(candidates: Seq<ProtocolId>, identifier: Seq<char>) -> Option<ProtocolId> {
    if exists|i: int| first_named(candidates, identifier, i) {
        Some(candidates[choose|i: int| first_named(candidates, identifier, i)])
    } else {
        None
    }
}

/// Finds the candidate that the handshake has agreed on: the first one, in
/// the order of preference, that `identifier` names. An identifier that
/// names none of them is a failed negotiation.
pub fn select_protocol(candidates: &Vec<ProtocolId>, identifier: &str) -> (selected: Result<
    ProtocolId,
    RPCError,
>)
    ensures
        selected == match agreed(candidates@, identifier@) {
            Some(protocol) => Ok::<ProtocolId, RPCError>(protocol),
            None => Err(RPCError::NegotiationFailure),
        },
        selected is Ok <==> exists|i: int|
            0 <= i < candidates@.len() && candidates@[i].identifier() == identifier@,
        selected matches Ok(protocol) ==> candidates@.contains(protocol) && protocol.identifier()
            == identifier@,
{
    let wanted = String::from_str(identifier);
    let mut i: usize = 0;
    while i < candidates.len()
        invariant
            i <= candidates@.len(),
            wanted@ == identifier@,
            forall|j: int| 0 <= j < i ==> candidates@[j].identifier() != identifier@,
        decreases candidates@.len() - i,
    {
        let name = candidates[i].protocol_id();
        if name == wanted {
            proof {
                assert(first_named(candidates@, identifier@, i as int));
                let k = choose|k: int| first_named(candidates@, identifier@, k);
                assert(k == i);
            }
            return Ok(candidates[i]);
        }
        i += 1;
    }
    Err(RPCError::NegotiationFailure)
}

impl OutboundRequestContainer {
    /// Whether an action asks to send this request under one of its wire
    /// variants, with this container's limit on the size of a frame.
    pub open spec fn sends(self, action: UpgradeAction) -> bool {
        &&& action matches UpgradeAction::SendFrame { protocol, max_rpc_size }
        &&& self.req.protocols().contains(protocol)
        &&& max_rpc_size == self.max_rpc_size
    }

    /// The state that follows `state` when `event` happens, and what is to
    /// be done then.
    pub open spec fn step(self, state: UpgradeState, event: UpgradeEvent) -> (
        UpgradeState,
        UpgradeAction,
    ) {
        match (state, event) {
            (UpgradeState::Idle, UpgradeEvent::Negotiated(identifier)) => match agreed(
                self.req.protocols(),
                identifier@,
            ) {
                Some(protocol) => (
                    UpgradeState::Sending,
                    UpgradeAction::SendFrame { protocol, max_rpc_size: self.max_rpc_size },
                ),
                None => (
                    UpgradeState::Failed(RPCError::NegotiationFailure),
                    UpgradeAction::Abort(RPCError::NegotiationFailure),
                ),
            },
            (UpgradeState::Idle, UpgradeEvent::NegotiationFailed) => (
                UpgradeState::Failed(RPCError::NegotiationFailure),
                UpgradeAction::Abort(RPCError::NegotiationFailure),
            ),
            (UpgradeState::Sending, UpgradeEvent::FrameWritten) => (
                UpgradeState::HalfClosed,
                UpgradeAction::CloseWrite,
            ),
            (UpgradeState::Sending, UpgradeEvent::FrameRejected) => (
                UpgradeState::Failed(RPCError::SerializationFailure),
                UpgradeAction::Abort(RPCError::SerializationFailure),
            ),
            (UpgradeState::Sending, UpgradeEvent::WriteFailed) => (
                UpgradeState::Failed(RPCError::IOFailure),
                UpgradeAction::Abort(RPCError::IOFailure),
            ),
            (UpgradeState::HalfClosed, UpgradeEvent::WriteClosed) => (
                UpgradeState::Complete,
                UpgradeAction::HandBack,
            ),
            (UpgradeState::HalfClosed, UpgradeEvent::CloseFailed) => (
                UpgradeState::Failed(RPCError::IOFailure),
                UpgradeAction::Abort(RPCError::IOFailure),
            ),
            _ => (state, UpgradeAction::Ignore),
        }
    }

    /// The state reached from `Idle` when `events` happen one after the
    /// other, and the action taken at each of them.
    pub open spec fn run(self, events: Seq<UpgradeEvent>) -> (UpgradeState, Seq<UpgradeAction>)
        decreases events.len(),
    {
        if events.len() == 0 {
            (UpgradeState::Idle, Seq::empty())
        } else {
            let (state, actions) = self.run(events.drop_last());
            let (next, action) = self.step(state, events.last());
            (next, actions.push(action))
        }
    }

    /// Whether `done`, the actions taken so far without those that ignore
    /// an event, is a history that ends in `state`.
    pub open spec fn history(self, state: UpgradeState, done: Seq<UpgradeAction>) -> bool {
        match state {
            UpgradeState::Idle => done.len() == 0,
            UpgradeState::Sending => done.len() == 1 && self.sends(done[0]),
            UpgradeState::HalfClosed => {
                &&& done.len() == 2
                &&& self.sends(done[0])
                &&& done[1] == UpgradeAction::CloseWrite
            },
            UpgradeState::Complete => {
                &&& done.len() == 3
                &&& self.sends(done[0])
                &&& done[1] == UpgradeAction::CloseWrite
                &&& done[2] == UpgradeAction::HandBack
            },
            UpgradeState::Failed(RPCError::NegotiationFailure) => {
                &&& done.len() == 1
                &&& done[0] == UpgradeAction::Abort(RPCError::NegotiationFailure)
            },
            UpgradeState::Failed(RPCError::SerializationFailure) => {
                &&& done.len() == 2
                &&& self.sends(done[0])
                &&& done[1] == UpgradeAction::Abort(RPCError::SerializationFailure)
            },
            UpgradeState::Failed(RPCError::IOFailure) => {
                ||| {
                    &&& done.len() == 2
                    &&& self.sends(done[0])
                    &&& done[1] == UpgradeAction::Abort(RPCError::IOFailure)
                }
                ||| {
                    &&& done.len() == 3
                    &&& self.sends(done[0])
                    &&& done[1] == UpgradeAction::CloseWrite
                    &&& done[2] == UpgradeAction::Abort(RPCError::IOFailure)
                }
            },
        }
    }

    /// Whether the frame was asked to be sent at the `i`th event, which was
    /// the handshake's agreement on a wire variant of the request.
    pub open spec fn sent_at(
        self,
        events: Seq<UpgradeEvent>,
        actions: Seq<UpgradeAction>,
        i: int,
    ) -> bool {
        &&& 0 <= i < events.len()
        &&& i < actions.len()
        &&& events[i] is Negotiated
        &&& self.sends(actions[i])
    }

    /// Whether the write half was asked to be closed at the `j`th event,
    /// which was the end of the writing of the frame, and the frame was
    /// asked to be sent before.
    pub open spec fn closed_at(
        self,
        events: Seq<UpgradeEvent>,
        actions: Seq<UpgradeAction>,
        j: int,
    ) -> bool {
        &&& 0 <= j < events.len()
        &&& j < actions.len()
        &&& events[j] is FrameWritten
        &&& actions[j] == UpgradeAction::CloseWrite
        &&& exists|i: int| 0 <= i < j && #[trigger] self.sent_at(events, actions, i)
    }

    /// Whether the stream was handed back at the `k`th event, which was the
    /// end of the closing of the write half, and the write half was asked to
    /// be closed before.
    pub open spec fn handed_back_at(
        self,
        events: Seq<UpgradeEvent>,
        actions: Seq<UpgradeAction>,
        k: int,
    ) -> bool {
        &&& 0 <= k < events.len()
        &&& k < actions.len()
        &&& events[k] is WriteClosed
        &&& actions[k] == UpgradeAction::HandBack
        &&& exists|j: int| 0 <= j < k && #[trigger] self.closed_at(events, actions, j)
    }

    /// Whether what a state stands for has happened, in its order: in
    /// `Sending` the frame was asked to be sent; in `HalfClosed` the frame
    /// was written after that and the write half was asked to be closed; in
    /// `Complete` the write half was closed after that and the stream was
    /// handed back.
    pub open spec fn in_order(
        self,
        state: UpgradeState,
        events: Seq<UpgradeEvent>,
        actions: Seq<UpgradeAction>,
    ) -> bool {
        match state {
            UpgradeState::Idle => true,
            UpgradeState::Sending => exists|i: int| #[trigger] self.sent_at(events, actions, i),
            UpgradeState::HalfClosed => exists|j: int| #[trigger]
                self.closed_at(events, actions, j),
            UpgradeState::Complete => exists|k: int| #[trigger]
                self.handed_back_at(events, actions, k),
            UpgradeState::Failed(_) => true,
        }
    }

    /// Decides what follows `state` when `event` happens.
    ///
    /// From `Idle`, the identifier that the handshake returned starts the
    /// sending if it names one of the request's wire variants; if it names
    /// none, or if the handshake found nothing to agree on, the attempt
    /// fails before anything is written. From `Sending`, a written frame
    /// leads to the closing of the write half; a frame the codec rejects or
    /// a failed write ends the attempt. From `HalfClosed`, the closed write
    /// half completes the attempt and a failed close ends it. Every other
    /// event is ignored, and so is every event after the attempt has
    /// completed or failed. Nothing is tried a second time.
    pub fn upgrade_step(&self, state: UpgradeState, event: &UpgradeEvent) -> (next: (
        UpgradeState,
        UpgradeAction,
    ))
        ensures
            next == self.step(state, *event),
            state.terminal() ==> next == (state, UpgradeAction::Ignore),
            next.1 is SendFrame ==> state is Idle && self.sends(next.1),
            next.1 is CloseWrite ==> state is Sending && event is FrameWritten,
            next.1 is HandBack ==> state is HalfClosed && event is WriteClosed,
            next.0 is Complete ==> state is Complete || next.1 is HandBack,
            next.1 matches UpgradeAction::Abort(error) ==> next.0 == UpgradeState::Failed(error),
    {
        proof {
            lemma_step_causes(*self, state, *event);
        }
        match state {
            UpgradeState::Idle => match event {
                UpgradeEvent::Negotiated(identifier) => {
                    let candidates = self.protocol_info();
                    match select_protocol(&candidates, identifier.as_str()) {
                        Ok(protocol) => (
                            UpgradeState::Sending,
                            UpgradeAction::SendFrame { protocol, max_rpc_size: self.max_rpc_size },
                        ),
                        Err(error) => (UpgradeState::Failed(error), UpgradeAction::Abort(error)),
                    }
                },
                UpgradeEvent::NegotiationFailed => (
                    UpgradeState::Failed(RPCError::NegotiationFailure),
                    UpgradeAction::Abort(RPCError::NegotiationFailure),
                ),
                _ => (state, UpgradeAction::Ignore),
            },
            UpgradeState::Sending => match event {
                UpgradeEvent::FrameWritten => (UpgradeState::HalfClosed, UpgradeAction::CloseWrite),
                UpgradeEvent::FrameRejected => (
                    UpgradeState::Failed(RPCError::SerializationFailure),
                    UpgradeAction::Abort(RPCError::SerializationFailure),
                ),
                UpgradeEvent::WriteFailed => (
                    UpgradeState::Failed(RPCError::IOFailure),
                    UpgradeAction::Abort(RPCError::IOFailure),
                ),
                _ => (state, UpgradeAction::Ignore),
            },
            UpgradeState::HalfClosed => match event {
                UpgradeEvent::WriteClosed => (UpgradeState::Complete, UpgradeAction::HandBack),
                UpgradeEvent::CloseFailed => (
                    UpgradeState::Failed(RPCError::IOFailure),
                    UpgradeAction::Abort(RPCError::IOFailure),
                ),
                _ => (state, UpgradeAction::Ignore),
            },
            UpgradeState::Complete => (state, UpgradeAction::Ignore),
            UpgradeState::Failed(_) => (state, UpgradeAction::Ignore),
        }
    }

    /// Goes through `events` from `Idle` and returns the state reached and
    /// the action taken at each event.
    pub fn replay(&self, events: &Vec<UpgradeEvent>) -> (outcome: (
        UpgradeState,
        Vec<UpgradeAction>,
    ))
        ensures
            (outcome.0, outcome.1@) == self.run(events@),
            outcome.1@.len() == events@.len(),
            self.history(outcome.0, asked(outcome.1@)),
            self.in_order(outcome.0, events@, outcome.1@),
    {
        let mut state = UpgradeState::Idle;
        let mut actions: Vec<UpgradeAction> = Vec::new();
        let mut i: usize = 0;
        while i < events.len()
            invariant
                i <= events@.len(),
                actions@.len() == i,
                (state, actions@) == self.run(events@.take(i as int)),
            decreases events@.len() - i,
        {
            let (next, action) = self.upgrade_step(state, &events[i]);
            proof {
                assert(events@.take(i + 1).drop_last() =~= events@.take(i as int));
                assert(events@.take(i + 1).last() == events@[i as int]);
            }
            state = next;
            actions.push(action);
            i += 1;
        }
        proof {
            assert(events@.take(i as int) =~= events@);
            lemma_run_history(*self, events@);
            lemma_run_in_order(*self, events@);
        }
        (state, actions)
    }
}

/// The actions that did something: all but those that ignore an event.
pub open spec fn asked(actions: Seq<UpgradeAction>) -> Seq<UpgradeAction> {
    actions.filter(|action: UpgradeAction| action != UpgradeAction::Ignore)
}

/// An identifier that names a candidate selects one with that identifier
/// from among the candidates, and one that names none selects nothing.
pub proof fn lemma_agreed(candidates: Seq<ProtocolId>, identifier: Seq<char>)
    ensures
        agreed(candidates, identifier) is Some <==> exists|i: int|
            0 <= i < candidates.len() && candidates[i].identifier() == identifier,
        agreed(candidates, identifier) matches Some(protocol) ==> candidates.contains(protocol)
            && protocol.identifier() == identifier,
{
    if exists|i: int| 0 <= i < candidates.len() && candidates[i].identifier() == identifier {
        let i = choose|i: int| 0 <= i < candidates.len() && candidates[i].identifier() == identifier;
        lemma_first_named_exists(candidates, identifier, i);
    }
}

/// Where some candidate up to `i` is named, one of them is the first.
proof fn lemma_first_named_exists(candidates: Seq<ProtocolId>, identifier: Seq<char>, i: int)
    requires
        0 <= i < candidates.len(),
        candidates[i].identifier() == identifier,
    ensures
        exists|k: int| first_named(candidates, identifier, k),
    decreases i,
{
    if exists|j: int| 0 <= j < i && candidates[j].identifier() == identifier {
        let j = choose|j: int| 0 <= j < i && candidates[j].identifier() == identifier;
        lemma_first_named_exists(candidates, identifier, j);
    } else {
        assert(first_named(candidates, identifier, i));
    }
}

/// Each action has one cause. A frame is sent only from `Idle`, under a
/// wire variant of the request that the agreed identifier names. The write
/// half is closed only once the frame is written. The stream is handed back
/// only once the write half is closed, and `Complete` is entered in no other
/// way. Nothing follows a state that is terminal.
pub proof fn lemma_step_causes(
    container: OutboundRequestContainer,
    state: UpgradeState,
    event: UpgradeEvent,
)
    ensures
        ({
            let (next, action) = container.step(state, event);
            &&& state.terminal() ==> next == state && action is Ignore
            &&& action is SendFrame ==> {
                &&& state is Idle
                &&& event matches UpgradeEvent::Negotiated(identifier)
                &&& container.sends(action)
                &&& action->protocol.identifier() == identifier@
            }
            &&& action is CloseWrite ==> state is Sending && event is FrameWritten
            &&& action is HandBack ==> state is HalfClosed && event is WriteClosed
            &&& next is Complete ==> state is Complete || action is HandBack
            &&& action matches UpgradeAction::Abort(error) ==> next == UpgradeState::Failed(error)
            &&& action is Ignore ==> next == state
        }),
{
    if let UpgradeEvent::Negotiated(identifier) = event {
        lemma_agreed(container.req.protocols(), identifier@);
    }
}

/// Whatever happens and in whatever order, the actions taken are a history
/// of the state reached: a frame is sent before the write half is closed,
/// the write half is closed before the stream is handed back, nothing is
/// written when the negotiation has failed, and a stream is never both
/// handed back and discarded.
pub proof fn lemma_run_history(container: OutboundRequestContainer, events: Seq<UpgradeEvent>)
    ensures
        container.history(container.run(events).0, asked(container.run(events).1)),
        container.run(events).1.len() == events.len(),
    decreases events.len(),
{
    reveal(Seq::filter);
    if events.len() > 0 {
        lemma_run_history(container, events.drop_last());
        let (state, actions) = container.run(events.drop_last());
        let (next, action) = container.step(state, events.last());
        lemma_step_causes(container, state, events.last());
        assert(actions.push(action).drop_last() =~= actions);
        assert(actions.push(action).last() == action);
    }
}

/// A send on which nothing goes wrong completes. When the handshake agrees
/// on the identifier of the request's preferred wire variant, the frame is
/// written and the write half is closed, the frame is sent once under that
/// variant, the write half is closed once, and the stream is handed back.
pub proof fn lemma_faultless_run_completes(
    container: OutboundRequestContainer,
    agreement: UpgradeEvent,
)
    requires
        agreement matches UpgradeEvent::Negotiated(identifier) && identifier@
            == container.req.protocols()[0].identifier(),
    ensures
        container.run(seq![agreement, UpgradeEvent::FrameWritten, UpgradeEvent::WriteClosed]) == (
            UpgradeState::Complete,
            seq![
                UpgradeAction::SendFrame {
                    protocol: container.req.protocols()[0],
                    max_rpc_size: container.max_rpc_size,
                },
                UpgradeAction::CloseWrite,
                UpgradeAction::HandBack,
            ],
        ),
{
    let candidates = container.req.protocols();
    let identifier = agreement->Negotiated_0@;
    assert(first_named(candidates, identifier, 0));
    let chosen = choose|i: int| first_named(candidates, identifier, i);
    assert(chosen == 0);
    let send = UpgradeAction::SendFrame {
        protocol: candidates[0],
        max_rpc_size: container.max_rpc_size,
    };
    let one = seq![agreement];
    let two = seq![agreement, UpgradeEvent::FrameWritten];
    let three = seq![agreement, UpgradeEvent::FrameWritten, UpgradeEvent::WriteClosed];
    assert(one.drop_last() =~= Seq::<UpgradeEvent>::empty());
    assert(two.drop_last() =~= one);
    assert(three.drop_last() =~= two);
    assert(container.run(one.drop_last()) == (UpgradeState::Idle, Seq::<UpgradeAction>::empty()));
    assert(container.run(one) == (UpgradeState::Sending, Seq::<UpgradeAction>::empty().push(send)));
    assert(container.run(two).0 == UpgradeState::HalfClosed);
    assert(container.run(three).0 == UpgradeState::Complete);
    assert(container.run(three).1 =~= seq![
        send,
        UpgradeAction::CloseWrite,
        UpgradeAction::HandBack,
    ]);
}

/// Once the attempt has completed or failed, nothing that happens changes
/// the state or asks for anything more: no frame is written to a stream
/// whose write half is closed, nor to one that is discarded.
pub proof fn lemma_terminal_is_final(
    container: OutboundRequestContainer,
    events: Seq<UpgradeEvent>,
    more: Seq<UpgradeEvent>,
)
    requires
        container.run(events).0.terminal(),
    ensures
        container.run(events + more).0 == container.run(events).0,
        asked(container.run(events + more).1) == asked(container.run(events).1),
    decreases more.len(),
{
    if more.len() == 0 {
        assert(events + more =~= events);
    } else {
        lemma_terminal_is_final(container, events, more.drop_last());
        assert((events + more).drop_last() =~= events + more.drop_last());
        assert((events + more).last() == more.last());
        let (state, actions) = container.run(events + more.drop_last());
        lemma_step_causes(container, state, more.last());
        reveal(Seq::filter);
        assert(actions.push(UpgradeAction::Ignore).drop_last() =~= actions);
    }
}

/// A run that hands the stream back has sent the frame and then closed the
/// write half before, has done nothing else, and ends in `Complete`.
pub proof fn lemma_handed_back_last(container: OutboundRequestContainer, events: Seq<UpgradeEvent>)
    requires
        asked(container.run(events).1).contains(UpgradeAction::HandBack),
    ensures
        container.run(events).0 is Complete,
        asked(container.run(events).1).len() == 3,
        container.sends(asked(container.run(events).1)[0]),
        asked(container.run(events).1)[1] == UpgradeAction::CloseWrite,
        asked(container.run(events).1)[2] == UpgradeAction::HandBack,
{
    lemma_run_history(container, events);
}

/// What has happened stays so when more happens.
proof fn lemma_order_extends(
    container: OutboundRequestContainer,
    events: Seq<UpgradeEvent>,
    actions: Seq<UpgradeAction>,
    event: UpgradeEvent,
    action: UpgradeAction,
    n: int,
)
    requires
        events.len() == actions.len(),
    ensures
        container.sent_at(events, actions, n) ==> container.sent_at(
            events.push(event),
            actions.push(action),
            n,
        ),
        container.closed_at(events, actions, n) ==> container.closed_at(
            events.push(event),
            actions.push(action),
            n,
        ),
        container.handed_back_at(events, actions, n) ==> container.handed_back_at(
            events.push(event),
            actions.push(action),
            n,
        ),
{
    let more = events.push(event);
    let taken = actions.push(action);
    assert forall|i: int| container.sent_at(events, actions, i) implies container.sent_at(
        more,
        taken,
        i,
    ) by {}
    assert forall|j: int| container.closed_at(events, actions, j) implies container.closed_at(
        more,
        taken,
        j,
    ) by {
        let i = choose|i: int| 0 <= i < j && container.sent_at(events, actions, i);
        assert(container.sent_at(more, taken, i));
    }
    if container.handed_back_at(events, actions, n) {
        let j = choose|j: int| 0 <= j < n && container.closed_at(events, actions, j);
        assert(container.closed_at(more, taken, j));
    }
}

/// The order of a send cannot be changed. Whatever happens and in whatever
/// order, a run that is sending was told of the handshake's agreement; one
/// that is closing the write half was told after that that the frame is
/// written; and one that has handed the stream back was told after that
/// that the write half is closed. The stream is never with the caller
/// before the frame is out and the write half is closed.
pub proof fn lemma_run_in_order(container: OutboundRequestContainer, events: Seq<UpgradeEvent>)
    ensures
        container.in_order(container.run(events).0, events, container.run(events).1),
        container.run(events).1.len() == events.len(),
    decreases events.len(),
{
    if events.len() > 0 {
        let before = events.drop_last();
        let event = events.last();
        lemma_run_in_order(container, before);
        let (state, actions) = container.run(before);
        let (next, action) = container.step(state, event);
        lemma_step_causes(container, state, event);
        assert(before.push(event) =~= events);
        let taken = actions.push(action);
        let last = before.len() as int;
        match state {
            UpgradeState::Idle => {
                if next is Sending {
                    assert(container.sent_at(events, taken, last));
                }
            },
            UpgradeState::Sending => {
                let i = choose|i: int| container.sent_at(before, actions, i);
                lemma_order_extends(container, before, actions, event, action, i);
                if next is HalfClosed {
                    assert(container.closed_at(events, taken, last));
                }
            },
            UpgradeState::HalfClosed => {
                let j = choose|j: int| container.closed_at(before, actions, j);
                lemma_order_extends(container, before, actions, event, action, j);
                if next is Complete {
                    assert(container.handed_back_at(events, taken, last));
                }
            },
            UpgradeState::Complete => {
                let k = choose|k: int| container.handed_back_at(before, actions, k);
                lemma_order_extends(container, before, actions, event, action, k);
            },
            UpgradeState::Failed(_) => {},
        }
    }
}

} // verus!

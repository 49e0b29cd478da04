//! One inbound SOCKS5 connection, from handshake to close.
//!
//! The handler owns no socket. The caller performs each action on the
//! connection's two streams and reports what happened as the next event.

use crate::proxy::{
    plan_of, ConnectPlan, ConnectPlanView, Proxy, ProxyError, ProxyErrorView, ProxyView,
    TransportFailure,
};
use crate::reply::{
    placeholder_bound_address, reply_for_error, reply_of_error, BoundAddress, ReplyCode,
};
use vstd::prelude::*;

verus! {

/// What the client asks for. Only CONNECT is served.
#[derive(Debug, Clone, Copy, PartialEq, Eq, Structural)]
pub enum Socks5Command {
    TcpConnect,
    TcpBind,
    UdpAssociate,
}

/// Where the client asks to be connected.
#[derive(Debug, PartialEq, Eq)]
pub struct TargetAddress {
    pub host: String,
    pub port: u16,
}

/// A [`TargetAddress`] with its host as a sequence.
pub struct TargetAddressView {
    pub host: Seq<char>,
    pub port: u16,
}

impl View for TargetAddress {
    type V = TargetAddressView;

    open spec fn view(&self) -> TargetAddressView {
        TargetAddressView { host: self.host@, port: self.port }
    }
}

/// Why a connection ended without having been relayed to its end.
#[derive(Debug, Clone, Copy, PartialEq, Eq, Structural)]
pub enum HandlerError {
    /// The client was refused with this reply.
    Reply(ReplyCode),
    /// A stream of the connection failed.
    Io(TransportFailure),
    /// An event was reported that the current step cannot end with.
    OutOfOrder,
}

/// How a connection ended.
#[derive(Debug, Clone, Copy, PartialEq, Eq, Structural)]
pub enum ConnectionOutcome {
    /// Relayed until one side closed: worth a note, not an error.
    Completed,
    Failed(HandlerError),
}

/// The step that a connection is at. Each names what is in progress.
#[derive(Debug, Clone, Copy, PartialEq, Eq, Structural)]
pub enum HandlerState {
    /// Negotiating with the client; no authentication is offered.
    Handshake,
    /// Reading the client's command and target.
    CommandRead,
    /// Connecting to the target through the upstream proxy.
    UpstreamConnect,
    /// Telling the client that it is refused.
    ReplyFailure(ReplyCode),
    /// Telling the client that it is connected.
    ReplySuccess,
    /// Copying bytes both ways.
    Relaying,
    /// Over; both streams are released.
    Closed(ConnectionOutcome),
}

/// What the caller reports once the step in progress has ended.
#[derive(Debug, PartialEq, Eq)]
pub enum HandlerEvent {
    HandshakeDone,
    CommandReceived { command: Socks5Command, target: TargetAddress },
    UpstreamConnected,
    UpstreamFailed(ProxyError),
    ReplySent,
    /// One side of the relay reached its end of stream.
    RelayFinished,
    /// A stream of this connection failed during the step in progress.
    IoFailed(TransportFailure),
}

/// A [`HandlerEvent`] over views.
pub enum HandlerEventView {
    HandshakeDone,
    CommandReceived { command: Socks5Command, target: TargetAddressView },
    UpstreamConnected,
    UpstreamFailed(ProxyErrorView),
    ReplySent,
    RelayFinished,
    IoFailed(TransportFailure),
}

impl View for HandlerEvent {
    type V = HandlerEventView;

    open spec fn view(&self) -> HandlerEventView {
        match self {
            HandlerEvent::HandshakeDone => HandlerEventView::HandshakeDone,
            HandlerEvent::CommandReceived { command, target } => HandlerEventView::CommandReceived {
                command: *command,
                target: target@,
            },
            HandlerEvent::UpstreamConnected => HandlerEventView::UpstreamConnected,
            HandlerEvent::UpstreamFailed(error) => HandlerEventView::UpstreamFailed(error@),
            HandlerEvent::ReplySent => HandlerEventView::ReplySent,
            HandlerEvent::RelayFinished => HandlerEventView::RelayFinished,
            HandlerEvent::IoFailed(failure) => HandlerEventView::IoFailed(*failure),
        }
    }
}

/// What the caller has to do next.
#[derive(Debug, PartialEq, Eq)]
pub enum HandlerAction {
    /// Negotiate with the client, offering no authentication.
    Handshake,
    ReadCommand,
    /// Carry out the plan, giving up after `timeout_ms` milliseconds.
    Connect { plan: ConnectPlan, timeout_ms: u64 },
    ReplyError(ReplyCode),
    ReplySuccess(BoundAddress),
    Relay,
    /// Release both streams; nothing follows.
    Close(ConnectionOutcome),
}

/// A [`HandlerAction`] over views.
pub enum HandlerActionView {
    Handshake,
    ReadCommand,
    Connect { plan: ConnectPlanView, timeout_ms: u64 },
    ReplyError(ReplyCode),
    ReplySuccess(BoundAddress),
    Relay,
    Close(ConnectionOutcome),
}

impl View for HandlerAction {
    type V = HandlerActionView;

    open spec fn view(&self) -> HandlerActionView {
        match self {
            HandlerAction::Handshake => HandlerActionView::Handshake,
            HandlerAction::ReadCommand => HandlerActionView::ReadCommand,
            HandlerAction::Connect { plan, timeout_ms } => HandlerActionView::Connect {
                plan: plan@,
                timeout_ms: *timeout_ms,
            },
            HandlerAction::ReplyError(code) => HandlerActionView::ReplyError(*code),
            HandlerAction::ReplySuccess(bound) => HandlerActionView::ReplySuccess(*bound),
            HandlerAction::Relay => HandlerActionView::Relay,
            HandlerAction::Close(outcome) => HandlerActionView::Close(*outcome),
        }
    }
}

/// The step that follows `state` once `event` is reported.
///
/// A step ends in its own success event, in a failure of a stream, or in
/// an event that does not belong to it. Only the first leads on.
pub open spec fn next_state(state: HandlerState, event: HandlerEventView) -> HandlerState {
    match (state, event) {
        (HandlerState::Closed(outcome), _) => HandlerState::Closed(outcome),
        (_, HandlerEventView::IoFailed(failure)) => HandlerState::Closed(
            ConnectionOutcome::Failed(HandlerError::Io(failure)),
        ),
        (HandlerState::Handshake, HandlerEventView::HandshakeDone) => HandlerState::CommandRead,
        (HandlerState::CommandRead, HandlerEventView::CommandReceived { command, .. }) => {
            if command == Socks5Command::TcpConnect {
                HandlerState::UpstreamConnect
            } else {
                HandlerState::ReplyFailure(ReplyCode::CommandNotSupported)
            }
        },
        (HandlerState::UpstreamConnect, HandlerEventView::UpstreamConnected) => {
            HandlerState::ReplySuccess
        },
        (HandlerState::UpstreamConnect, HandlerEventView::UpstreamFailed(error)) => {
            HandlerState::ReplyFailure(reply_of_error(error))
        },
        (HandlerState::ReplyFailure(code), HandlerEventView::ReplySent) => HandlerState::Closed(
            ConnectionOutcome::Failed(HandlerError::Reply(code)),
        ),
        (HandlerState::ReplySuccess, HandlerEventView::ReplySent) => HandlerState::Relaying,
        (HandlerState::Relaying, HandlerEventView::RelayFinished) => HandlerState::Closed(
            ConnectionOutcome::Completed,
        ),
        _ => HandlerState::Closed(ConnectionOutcome::Failed(HandlerError::OutOfOrder)),
    }
}

/// The target that an event names, if it names one.
pub open spec fn target_of(event: HandlerEventView) -> TargetAddressView {
    match event {
        HandlerEventView::CommandReceived { target, .. } => target,
        _ => TargetAddressView { host: Seq::empty(), port: 0 },
    }
}

/// What has to be done on entering `state`: each step is one action.
pub open spec fn entry_action(
    state: HandlerState,
    proxy: ProxyView,
    timeout_ms: u64,
    target: TargetAddressView,
) -> HandlerActionView {
    match state {
        HandlerState::Handshake => HandlerActionView::Handshake,
        HandlerState::CommandRead => HandlerActionView::ReadCommand,
        HandlerState::UpstreamConnect => HandlerActionView::Connect {
            plan: plan_of(proxy, target.host, target.port),
            timeout_ms,
        },
        HandlerState::ReplyFailure(code) => HandlerActionView::ReplyError(code),
        HandlerState::ReplySuccess => HandlerActionView::ReplySuccess(placeholder_bound_address()),
        HandlerState::Relaying => HandlerActionView::Relay,
        HandlerState::Closed(outcome) => HandlerActionView::Close(outcome),
    }
}

/// The per-connection logic between an accepted client and the upstream.
#[derive(Debug, PartialEq, Eq)]
pub struct ConnectionHandler {
    proxy: Proxy,
    timeout_ms: u64,
    state: HandlerState,
}

/// A [`ConnectionHandler`]: what it was made with, and the step it is at.
pub struct ConnectionHandlerView {
    pub proxy: ProxyView,
    pub timeout_ms: u64,
    pub state: HandlerState,
}

impl View for ConnectionHandler {
    type V = ConnectionHandlerView;

    closed spec fn view(&self) -> ConnectionHandlerView {
        ConnectionHandlerView { proxy: self.proxy@, timeout_ms: self.timeout_ms, state: self.state }
    }
}

/// The handler after `event`: it moves on, and nothing else of it changes.
pub open spec fn handler_after(handler: ConnectionHandlerView, event: HandlerEventView)
    -> ConnectionHandlerView {
    ConnectionHandlerView { state: next_state(handler.state, event), ..handler }
}

/// What the handler asks for in answer to `event`.
pub open spec fn action_after(handler: ConnectionHandlerView, event: HandlerEventView)
    -> HandlerActionView {
    entry_action(
        next_state(handler.state, event),
        handler.proxy,
        handler.timeout_ms,
        target_of(event),
    )
}

impl ConnectionHandler {
    /// A handler for a connection that was just accepted. The handshake
    /// with the client is the step in progress.
    pub fn new(proxy: Proxy, timeout_ms: u64) -> (r: ConnectionHandler)
        ensures
            r@ == (ConnectionHandlerView { proxy: proxy@, timeout_ms, state: HandlerState::Handshake }),
    {
        ConnectionHandler { proxy, timeout_ms, state: HandlerState::Handshake }
    }

    pub fn state(&self) -> (r: HandlerState)
        ensures
            r == self@.state,
    {
        self.state
    }

    /// What a connection begins with, before any event.
    pub fn first_action(&self) -> (action: HandlerAction)
        ensures
            action == HandlerAction::Handshake,
    {
        HandlerAction::Handshake
    }

    /// Takes the event that ended the step in progress, moves to the next
    /// step and says what it consists of.
    pub fn step(&mut self, event: HandlerEvent) -> (action: HandlerAction)
        ensures
            final(self)@ == handler_after(old(self)@, event@),
            action@ == action_after(old(self)@, event@),
    {
        if let HandlerState::Closed(outcome) = self.state {
            return HandlerAction::Close(outcome);
        }
        if let HandlerEvent::IoFailed(failure) = event {
            return self.close(ConnectionOutcome::Failed(HandlerError::Io(failure)));
        }
        match (self.state, event) {
            (HandlerState::Handshake, HandlerEvent::HandshakeDone) => {
                self.state = HandlerState::CommandRead;
                HandlerAction::ReadCommand
            },
            (HandlerState::CommandRead, HandlerEvent::CommandReceived { command, target }) => {
                match command {
                    Socks5Command::TcpConnect => {
                        self.state = HandlerState::UpstreamConnect;
                        HandlerAction::Connect {
                            plan: self.proxy.connect_plan(target.host.as_str(), target.port),
                            timeout_ms: self.timeout_ms,
                        }
                    },
                    _ => self.refuse(ReplyCode::CommandNotSupported),
                }
            },
            (HandlerState::UpstreamConnect, HandlerEvent::UpstreamConnected) => {
                self.state = HandlerState::ReplySuccess;
                HandlerAction::ReplySuccess(BoundAddress::placeholder())
            },
            (HandlerState::UpstreamConnect, HandlerEvent::UpstreamFailed(error)) => {
                let code = reply_for_error(&error);
                self.refuse(code)
            },
            (HandlerState::ReplyFailure(code), HandlerEvent::ReplySent) => {
                self.close(ConnectionOutcome::Failed(HandlerError::Reply(code)))
            },
            (HandlerState::ReplySuccess, HandlerEvent::ReplySent) => {
                self.state = HandlerState::Relaying;
                HandlerAction::Relay
            },
            (HandlerState::Relaying, HandlerEvent::RelayFinished) => {
                self.close(ConnectionOutcome::Completed)
            },
            _ => self.close(ConnectionOutcome::Failed(HandlerError::OutOfOrder)),
        }
    }

    fn refuse(&mut self, code: ReplyCode) -> (action: HandlerAction)
        ensures
            final(self)@ == (ConnectionHandlerView {
                state: HandlerState::ReplyFailure(code),
                ..old(self)@
            }),
            action == HandlerAction::ReplyError(code),
    {
        self.state = HandlerState::ReplyFailure(code);
        HandlerAction::ReplyError(code)
    }

    fn close(&mut self, outcome: ConnectionOutcome) -> (action: HandlerAction)
        ensures
            final(self)@ == (ConnectionHandlerView {
                state: HandlerState::Closed(outcome),
                ..old(self)@
            }),
            action == HandlerAction::Close(outcome),
    {
        self.state = HandlerState::Closed(outcome);
        HandlerAction::Close(outcome)
    }
}

/// The step reached from `state` once all of `events` have been reported,
/// in order.
pub open spec fn state_after(state: HandlerState, events: Seq<HandlerEventView>) -> HandlerState
    decreases events.len(),
{
    if events.len() == 0 {
        state
    } else {
        next_state(state_after(state, events.drop_last()), events.last())
    }
}

/// The action that answers `events[i]`, on a handler that has been
/// reported the events before it.
pub open spec fn action_at(handler: ConnectionHandlerView, events: Seq<HandlerEventView>, i: int)
    -> HandlerActionView
    recommends
        0 <= i < events.len(),
{
    action_after(
        ConnectionHandlerView { state: state_after(handler.state, events.take(i)), ..handler },
        events[i],
    )
}

/// How far along a step is: the steps of one connection are numbered in
/// the order in which they can occur.
pub open spec fn step_rank(state: HandlerState) -> nat {
    match state {
        HandlerState::Handshake => 0,
        HandlerState::CommandRead => 1,
        HandlerState::UpstreamConnect => 2,
        HandlerState::ReplyFailure(_) => 3,
        HandlerState::ReplySuccess => 3,
        HandlerState::Relaying => 4,
        HandlerState::Closed(_) => 5,
    }
}

/// A connection only moves forward: every event takes an open connection
/// to a later step, and leaves a closed one as it is.
pub proof fn lemma_steps_move_forward(state: HandlerState, event: HandlerEventView)
    ensures
        state is Closed ==> next_state(state, event) == state,
        !(state is Closed) ==> step_rank(next_state(state, event)) > step_rank(state),
{
}

/// No step is skipped: an event leads to the step right after the one in
/// progress, to a refusal of the client, or to the end.
pub proof fn lemma_no_step_is_skipped(state: HandlerState, event: HandlerEventView)
    ensures
        ({
            let next = next_state(state, event);
            ||| next is Closed
            ||| state == HandlerState::Handshake && next == HandlerState::CommandRead
            ||| state == HandlerState::CommandRead && next == HandlerState::UpstreamConnect
            ||| state == HandlerState::CommandRead && next == HandlerState::ReplyFailure(
                ReplyCode::CommandNotSupported,
            )
            ||| state == HandlerState::UpstreamConnect && next == HandlerState::ReplySuccess
            ||| state == HandlerState::UpstreamConnect && next is ReplyFailure
            ||| state == HandlerState::ReplySuccess && next == HandlerState::Relaying
        }),
{
}

/// A failure of a stream ends an open connection at once, whatever step
/// it is at, and is what the connection is said to have failed with.
pub proof fn lemma_io_failure_closes(state: HandlerState, failure: TransportFailure)
    requires
        !(state is Closed),
    ensures
        next_state(state, HandlerEventView::IoFailed(failure)) == HandlerState::Closed(
            ConnectionOutcome::Failed(HandlerError::Io(failure)),
        ),
{
}

/// The relay ends well only by a clean close: a connection completes
/// exactly when a relay in progress reports the end of a stream.
pub proof fn lemma_completed_means_relayed(state: HandlerState, event: HandlerEventView)
    requires
        !(state is Closed),
    ensures
        next_state(state, event) == HandlerState::Closed(ConnectionOutcome::Completed) <==> state
            == HandlerState::Relaying && event == HandlerEventView::RelayFinished,
{
}

proof fn lemma_closed_stays(state: HandlerState, events: Seq<HandlerEventView>)
    requires
        state is Closed,
    ensures
        state_after(state, events) == state,
    decreases events.len(),
{
    if events.len() > 0 {
        lemma_closed_stays(state, events.drop_last());
    }
}

/// A closed connection stays closed, with the outcome it closed with, and
/// asks for nothing but to be released.
pub proof fn lemma_closed_is_final(
    handler: ConnectionHandlerView,
    events: Seq<HandlerEventView>,
    i: int,
)
    requires
        handler.state is Closed,
        0 <= i < events.len(),
    ensures
        state_after(handler.state, events) == handler.state,
        action_at(handler, events, i) == HandlerActionView::Close(handler.state->Closed_0),
{
    lemma_closed_stays(handler.state, events);
    lemma_closed_stays(handler.state, events.take(i));
}

proof fn lemma_refused_stays_refused(state: HandlerState, events: Seq<HandlerEventView>)
    requires
        state is ReplyFailure || state is Closed,
    ensures
        state_after(state, events) is ReplyFailure || state_after(state, events) is Closed,
    decreases events.len(),
{
    if events.len() > 0 {
        lemma_refused_stays_refused(state, events.drop_last());
    }
}

/// A command other than CONNECT is answered with `CommandNotSupported`,
/// and whatever is reported afterwards, the handler never asks for an
/// upstream connect: the connection is refused and then closed.
pub proof fn lemma_unsupported_command_never_connects(
    handler: ConnectionHandlerView,
    command: Socks5Command,
    target: TargetAddressView,
    later: Seq<HandlerEventView>,
    i: int,
)
    requires
        handler.state == HandlerState::CommandRead,
        command != Socks5Command::TcpConnect,
        0 <= i < later.len(),
    ensures
        ({
            let received = HandlerEventView::CommandReceived { command, target };
            let refused = handler_after(handler, received);
            &&& action_after(handler, received) == HandlerActionView::ReplyError(
                ReplyCode::CommandNotSupported,
            )
            &&& !(action_at(refused, later, i) is Connect)
            &&& (state_after(refused.state, later) is ReplyFailure || state_after(
                refused.state,
                later,
            ) is Closed)
        }),
{
    let received = HandlerEventView::CommandReceived { command, target };
    let refused = handler_after(handler, received);
    lemma_refused_stays_refused(refused.state, later);
    lemma_refused_stays_refused(refused.state, later.take(i));
}

/// The outcome of the upstream connect is always told to the client: a
/// success with the success reply, a failure with the reply for its
/// error, which is never the success code. After a failure the
/// connection is never relayed.
pub proof fn lemma_connect_outcome_is_replied(
    handler: ConnectionHandlerView,
    error: ProxyErrorView,
    later: Seq<HandlerEventView>,
)
    requires
        handler.state == HandlerState::UpstreamConnect,
    ensures
        action_after(handler, HandlerEventView::UpstreamConnected)
            == HandlerActionView::ReplySuccess(placeholder_bound_address()),
        action_after(handler, HandlerEventView::UpstreamFailed(error))
            == HandlerActionView::ReplyError(reply_of_error(error)),
        reply_of_error(error) != ReplyCode::Succeeded,
        state_after(
            handler_after(handler, HandlerEventView::UpstreamFailed(error)).state,
            later,
        ) != HandlerState::Relaying,
{
    lemma_refused_stays_refused(
        handler_after(handler, HandlerEventView::UpstreamFailed(error)).state,
        later,
    );
}

/// Whether `event` is a CONNECT command.
pub open spec fn is_connect_command(event: HandlerEventView) -> bool {
    event matches HandlerEventView::CommandReceived { command, .. } && command
        == Socks5Command::TcpConnect
}

/// Whether `events` are what takes a new connection to the open step
/// `state`: the handshake, then a command, then the outcome of the
/// upstream connect, then the reply, as far as `state` lies.
pub open spec fn leads_to(events: Seq<HandlerEventView>, state: HandlerState) -> bool {
    let rank = step_rank(state);
    &&& 1 <= rank <= 4 ==> events.len() >= 1 && events[0] == HandlerEventView::HandshakeDone
    &&& 2 <= rank <= 4 ==> events.len() >= 2 && events[1] is CommandReceived
    &&& match state {
        HandlerState::Handshake => events.len() == 0,
        HandlerState::CommandRead => events.len() == 1,
        HandlerState::UpstreamConnect => events.len() == 2 && is_connect_command(events[1]),
        HandlerState::ReplySuccess => {
            &&& events.len() == 3
            &&& is_connect_command(events[1])
            &&& events[2] == HandlerEventView::UpstreamConnected
        },
        HandlerState::Relaying => {
            &&& events.len() == 4
            &&& is_connect_command(events[1])
            &&& events[2] == HandlerEventView::UpstreamConnected
            &&& events[3] == HandlerEventView::ReplySent
        },
        HandlerState::ReplyFailure(code) => {
            ||| {
                &&& events.len() == 2
                &&& !is_connect_command(events[1])
                &&& code == ReplyCode::CommandNotSupported
            }
            ||| {
                &&& events.len() == 3
                &&& is_connect_command(events[1])
                &&& events[2] matches HandlerEventView::UpstreamFailed(error)
                &&& code == reply_of_error(error)
            }
        },
        HandlerState::Closed(_) => true,
    }
}

/// There is one way through a connection. Whatever step an open
/// connection is at, the events reported so far are exactly those of the
/// steps before it, in their order; nothing was skipped or done twice.
pub proof fn lemma_one_way_through(events: Seq<HandlerEventView>)
    ensures
        leads_to(events, state_after(HandlerState::Handshake, events)),
    decreases events.len(),
{
    if events.len() > 0 {
        let front = events.drop_last();
        lemma_one_way_through(front);
        assert(forall|j: int| 0 <= j < front.len() ==> front[j] == events[j]);
    }
}

/// Each connection gets exactly one attempt at each thing: the upstream
/// connect is asked for only in answer to the command, the success reply
/// only in answer to the connect, the relay only in answer to the reply.
pub proof fn lemma_nothing_is_retried(
    handler: ConnectionHandlerView,
    events: Seq<HandlerEventView>,
    i: int,
)
    requires
        handler.state == HandlerState::Handshake,
        0 <= i < events.len(),
    ensures
        action_at(handler, events, i) is Connect ==> i == 1,
        action_at(handler, events, i) is ReplySuccess ==> i == 2,
        action_at(handler, events, i) is Relay ==> i == 3,
        !(action_at(handler, events, i) is Handshake),
{
    let upto = events.take(i + 1);
    lemma_one_way_through(upto);
    assert(upto.drop_last() == events.take(i));
    assert(upto.last() == events[i]);
}

/// The handler once all of `events` have been reported to it.
pub open spec fn handler_run(handler: ConnectionHandlerView, events: Seq<HandlerEventView>)
    -> ConnectionHandlerView {
    ConnectionHandlerView { state: state_after(handler.state, events), ..handler }
}

/// An event, and which of two connections it belongs to.
pub struct Routed {
    pub to_first: bool,
    pub event: HandlerEventView,
}

/// Two connections served side by side, after the events of `schedule`
/// have been given, in that order, each to the connection it belongs to.
pub open spec fn pair_after(
    first: ConnectionHandlerView,
    second: ConnectionHandlerView,
    schedule: Seq<Routed>,
) -> (ConnectionHandlerView, ConnectionHandlerView)
    decreases schedule.len(),
{
    if schedule.len() == 0 {
        (first, second)
    } else {
        let before = pair_after(first, second, schedule.drop_last());
        let routed = schedule.last();
        if routed.to_first {
            (handler_after(before.0, routed.event), before.1)
        } else {
            (before.0, handler_after(before.1, routed.event))
        }
    }
}

/// The action that answers the last event of `schedule`.
pub open spec fn pair_action(
    first: ConnectionHandlerView,
    second: ConnectionHandlerView,
    schedule: Seq<Routed>,
) -> HandlerActionView
    recommends
        schedule.len() > 0,
{
    let before = pair_after(first, second, schedule.drop_last());
    let routed = schedule.last();
    if routed.to_first {
        action_after(before.0, routed.event)
    } else {
        action_after(before.1, routed.event)
    }
}

/// The events of `schedule` that belong to one of the two connections.
pub open spec fn events_of(schedule: Seq<Routed>, first: bool) -> Seq<HandlerEventView>
    decreases schedule.len(),
{
    if schedule.len() == 0 {
        Seq::empty()
    } else {
        let before = events_of(schedule.drop_last(), first);
        if schedule.last().to_first == first {
            before.push(schedule.last().event)
        } else {
            before
        }
    }
}

/// Connections do not see each other. However the events of two
/// connections are interleaved, each handler ends where its own events
/// alone would have taken it, and each answer is the one that the handler
/// would have given had the other connection never existed: the target,
/// the reply and the plan of one never show in the other.
pub proof fn lemma_connections_are_independent(
    first: ConnectionHandlerView,
    second: ConnectionHandlerView,
    schedule: Seq<Routed>,
)
    ensures
        pair_after(first, second, schedule).0 == handler_run(first, events_of(schedule, true)),
        pair_after(first, second, schedule).1 == handler_run(second, events_of(schedule, false)),
        schedule.len() > 0 && schedule.last().to_first ==> pair_action(first, second, schedule)
            == action_after(
            handler_run(first, events_of(schedule.drop_last(), true)),
            schedule.last().event,
        ),
        schedule.len() > 0 && !schedule.last().to_first ==> pair_action(first, second, schedule)
            == action_after(
            handler_run(second, events_of(schedule.drop_last(), false)),
            schedule.last().event,
        ),
    decreases schedule.len(),
{
    if schedule.len() > 0 {
        let front = schedule.drop_last();
        let routed = schedule.last();
        lemma_connections_are_independent(first, second, front);
        let own = events_of(front, routed.to_first);
        assert(own.push(routed.event).drop_last() == own);
    }
}

} // verus!

//! The connect / authenticate / subscribe handshake as a state machine: the
//! session takes one inbound event at a time and answers with what to do next.
use vstd::prelude::*;
use crate::models::{
    Action, ConstructionError, FeedConfig, Request, RequestView, Response, ResponseView, Status,
    comma_joined, decoded_frame, has_status, request_json, response_views, str_views,
};
use crate::wire::DecodeError;

verus! {

/// Why the transport stopped carrying messages.
#[derive(Clone, Copy, Debug, PartialEq, Eq, Structural)]
pub enum TransportError {
    /// The stream was closed.
    Closed,
    /// Reading or writing failed.
    Io,
}

/// Why a session ended.
#[derive(Clone, Copy, Debug, PartialEq, Eq, Structural)]
pub enum SessionError {
    /// The handshake requests could not be built.
    Construction(ConstructionError),
    /// A frame received during the handshake could not be decoded.
    Decode(DecodeError),
    /// The transport closed or failed.
    Transport(TransportError),
    /// Too many inbound batches came without the awaited acknowledgement.
    HandshakeTimeout,
    /// The server refused the secret.
    AuthenticationRejected,
}

/// The phases of a session, in the only order in which they are entered.
/// `Failed` and `Closed` end the session.
#[derive(Clone, Copy, Debug, PartialEq, Eq, Structural)]
pub enum Phase {
    AwaitingConnectAck,
    AwaitingAuthAck,
    AwaitingSubscribeAck,
    Streaming,
    Failed(SessionError),
    Closed,
}

/// The position of a phase in the order of the handshake.
pub open spec fn rank(p: Phase) -> nat {
    match p {
        Phase::AwaitingConnectAck => 0,
        Phase::AwaitingAuthAck => 1,
        Phase::AwaitingSubscribeAck => 2,
        Phase::Streaming => 3,
        Phase::Failed(_) => 4,
        Phase::Closed => 4,
    }
}

/// The handshake is over in this phase, for good or ill.
pub open spec fn is_terminal(p: Phase) -> bool {
    rank(p) >= 3
}

/// One thing the transport hands to the session.
#[derive(Clone, Debug, PartialEq, Eq)]
pub enum Inbound {
    /// One text frame.
    Frame(String),
    /// A frame whose bytes are not UTF-8 text.
    Invalid,
    /// The stream ended cleanly.
    End,
    /// Receiving, or sending the last message, failed.
    Failed(TransportError),
}

/// An inbound event as mathematical values.
pub enum InboundView {
    Frame(Seq<char>),
    Invalid,
    End,
    Failed(TransportError),
}

impl View for Inbound {
    type V = InboundView;

    open spec fn view(&self) -> InboundView {
        match self {
            Inbound::Frame(t) => InboundView::Frame(t@),
            Inbound::Invalid => InboundView::Invalid,
            Inbound::End => InboundView::End,
            Inbound::Failed(e) => InboundView::Failed(*e),
        }
    }
}

/// What the session makes of an inbound event.
pub enum Reading {
    /// A frame that decoded to these responses.
    Batch(Seq<ResponseView>),
    /// A frame that did not decode.
    Undecodable(DecodeError),
    /// The end of the stream.
    Ended,
    /// A transport failure.
    Broken(TransportError),
}

/// The reading of one inbound event.
pub open spec fn reading(ev: InboundView) -> Reading {
    match ev {
        InboundView::Frame(t) => match decoded_frame(t) {
            Ok(rs) => Reading::Batch(rs),
            Err(e) => Reading::Undecodable(e),
        },
        InboundView::Invalid => Reading::Undecodable(DecodeError::MalformedFrame),
        InboundView::End => Reading::Ended,
        InboundView::Failed(e) => Reading::Broken(e),
    }
}

/// What the session asks its driver to do next.
#[derive(Clone, Debug, PartialEq, Eq)]
pub enum Command {
    /// Send this text, then hand over the next inbound event.
    Send(String),
    /// Hand over the next inbound event.
    Receive,
    /// The handshake is complete: start ingesting frames.
    Stream,
    /// The session is over, for this reason.
    Stop(SessionError),
}

/// A command as mathematical values.
pub enum CommandView {
    Send(Seq<char>),
    Receive,
    Stream,
    Stop(SessionError),
}

impl View for Command {
    type V = CommandView;

    open spec fn view(&self) -> CommandView {
        match self {
            Command::Send(t) => CommandView::Send(t@),
            Command::Receive => CommandView::Receive,
            Command::Stream => CommandView::Stream,
            Command::Stop(e) => CommandView::Stop(*e),
        }
    }
}

/// The handshake state of one connection.
pub struct Session {
    phase: Phase,
    idle: u64,
    idle_limit: u64,
    auth_text: String,
    subscribe_text: String,
}

/// What a session holds, as mathematical values.
pub struct SessionView {
    pub phase: Phase,
    /// Batches received in the current phase without the awaited acknowledgement.
    pub idle: u64,
    pub idle_limit: u64,
    /// The authentication request to send once connected.
    pub auth_text: Seq<char>,
    /// The subscription request to send once authenticated.
    pub subscribe_text: Seq<char>,
}

impl View for Session {
    type V = SessionView;

    closed spec fn view(&self) -> SessionView {
        SessionView {
            phase: self.phase,
            idle: self.idle,
            idle_limit: self.idle_limit,
            auth_text: self.auth_text@,
            subscribe_text: self.subscribe_text@,
        }
    }
}

/// `s` moved to phase `p` with `idle` batches counted.
pub open spec fn moved(s: SessionView, p: Phase, idle: u64) -> SessionView {
    SessionView { phase: p, idle, idle_limit: s.idle_limit, auth_text: s.auth_text, subscribe_text: s.subscribe_text }
}

/// A batch without the awaited acknowledgement: count it, or give up once
/// the limit is reached.
pub open spec fn idle_step(s: SessionView) -> (SessionView, CommandView) {
    if s.idle < s.idle_limit {
        (moved(s, s.phase, (s.idle + 1) as u64), CommandView::Receive)
    } else {
        (
            moved(s, Phase::Failed(SessionError::HandshakeTimeout), s.idle),
            CommandView::Stop(SessionError::HandshakeTimeout),
        )
    }
}

/// The next state of the session, and the command, after the reading `r`.
pub open spec fn transition(s: SessionView, r: Reading) -> (SessionView, CommandView) {
    match s.phase {
        Phase::Streaming => (s, CommandView::Stream),
        Phase::Failed(e) => (s, CommandView::Stop(e)),
        Phase::Closed => (s, CommandView::Stop(SessionError::Transport(TransportError::Closed))),
        _ => match r {
            Reading::Ended => (
                moved(s, Phase::Closed, s.idle),
                CommandView::Stop(SessionError::Transport(TransportError::Closed)),
            ),
            Reading::Broken(e) => (
                moved(s, Phase::Failed(SessionError::Transport(e)), s.idle),
                CommandView::Stop(SessionError::Transport(e)),
            ),
            Reading::Undecodable(e) => (
                moved(s, Phase::Failed(SessionError::Decode(e)), s.idle),
                CommandView::Stop(SessionError::Decode(e)),
            ),
            Reading::Batch(rs) => match s.phase {
                Phase::AwaitingConnectAck => if has_status(rs, Status::Connected) {
                    (moved(s, Phase::AwaitingAuthAck, 0), CommandView::Send(s.auth_text))
                } else {
                    idle_step(s)
                },
                Phase::AwaitingAuthAck => if has_status(rs, Status::AuthSuccess) {
                    (moved(s, Phase::AwaitingSubscribeAck, 0), CommandView::Send(s.subscribe_text))
                } else if has_status(rs, Status::AuthFailed) {
                    (
                        moved(s, Phase::Failed(SessionError::AuthenticationRejected), s.idle),
                        CommandView::Stop(SessionError::AuthenticationRejected),
                    )
                } else {
                    idle_step(s)
                },
                _ => if has_status(rs, Status::Success) {
                    (moved(s, Phase::Streaming, 0), CommandView::Stream)
                } else {
                    idle_step(s)
                },
            },
        },
    }
}

/// The phase only moves forward through the handshake's order, and a phase
/// that ends the handshake is never left.
pub proof fn lemma_phase_only_advances(s: SessionView, r: Reading)
    ensures
        rank(s.phase) <= rank(transition(s, r).0.phase),
        is_terminal(s.phase) ==> transition(s, r).0 == s,
{
}

/// The reading is a batch with a response of status `st`.
pub open spec fn acknowledges(r: Reading, st: Status) -> bool {
    match r {
        Reading::Batch(rs) => has_status(rs, st),
        _ => false,
    }
}

/// A request goes out only as the answer to its acknowledgement: Auth once the
/// connection is acknowledged, Subscribe once authentication succeeded.
pub proof fn lemma_sends_follow_acknowledgements(s: SessionView, r: Reading)
    ensures
        transition(s, r).1 is Send ==> {
            ||| s.phase == Phase::AwaitingConnectAck && acknowledges(r, Status::Connected)
                && transition(s, r).1 == CommandView::Send(s.auth_text)
                && transition(s, r).0.phase == Phase::AwaitingAuthAck
            ||| s.phase == Phase::AwaitingAuthAck && acknowledges(r, Status::AuthSuccess)
                && transition(s, r).1 == CommandView::Send(s.subscribe_text)
                && transition(s, r).0.phase == Phase::AwaitingSubscribeAck
        },
{
}

/// Batches acknowledging the connection, the authentication and the
/// subscription, in turn, make a fresh session send Auth, then Subscribe, and
/// reach `Streaming`.
pub proof fn lemma_handshake_completes(
    s: SessionView,
    connected: Seq<ResponseView>,
    authenticated: Seq<ResponseView>,
    subscribed: Seq<ResponseView>,
)
    requires
        s.phase == Phase::AwaitingConnectAck,
        has_status(connected, Status::Connected),
        has_status(authenticated, Status::AuthSuccess),
        has_status(subscribed, Status::Success),
    ensures
        ({
            let (s1, c1) = transition(s, Reading::Batch(connected));
            let (s2, c2) = transition(s1, Reading::Batch(authenticated));
            let (s3, c3) = transition(s2, Reading::Batch(subscribed));
            &&& c1 == CommandView::Send(s.auth_text)
            &&& c2 == CommandView::Send(s.subscribe_text)
            &&& c3 == CommandView::Stream
            &&& s3.phase == Phase::Streaming
        }),
{
}

/// A refused authentication after the connection was acknowledged ends the
/// session in `Failed(AuthenticationRejected)`: Auth was sent, Subscribe never
/// is, whatever comes next.
pub proof fn lemma_rejected_authentication_ends(
    s: SessionView,
    connected: Seq<ResponseView>,
    refused: Seq<ResponseView>,
    later: Reading,
)
    requires
        s.phase == Phase::AwaitingConnectAck,
        has_status(connected, Status::Connected),
        has_status(refused, Status::AuthFailed),
        !has_status(refused, Status::AuthSuccess),
    ensures
        ({
            let (s1, c1) = transition(s, Reading::Batch(connected));
            let (s2, c2) = transition(s1, Reading::Batch(refused));
            let (s3, c3) = transition(s2, later);
            &&& c1 == CommandView::Send(s.auth_text)
            &&& c2 == CommandView::Stop(SessionError::AuthenticationRejected)
            &&& s2.phase == Phase::Failed(SessionError::AuthenticationRejected)
            &&& s3 == s2
            &&& c3 == CommandView::Stop(SessionError::AuthenticationRejected)
        }),
{
}

/// A response of `rs` has status `st`.
fn any_status(rs: &Vec<Response>, st: Status) -> (r: bool)
    ensures
        r == has_status(response_views(rs@), st),
{
    let ghost views = response_views(rs@);
    let mut i: usize = 0;
    while i < rs.len()
        invariant
            i <= rs@.len(),
            views == response_views(rs@),
            forall|k: int| 0 <= k < i ==> (#[trigger] views[k]).status != Some(st),
        decreases rs@.len() - i,
    {
        let found = match rs[i].status {
            Some(s) => s == st,
            None => false,
        };
        if found {
            assert(views[i as int].status == Some(st));
            return true;
        }
        i = i + 1;
    }
    false
}

impl Session {
    /// A session for the feed that `config` describes, awaiting the server's
    /// connection acknowledgement. Both requests are built here: a secret of
    /// the wrong length, or no target, is refused before anything is sent.
    pub fn new(config: &FeedConfig, secret: &str, targets: Vec<&str>) -> (r: Result<Session, ConstructionError>)
        ensures
            r is Ok <==> secret.len() == config.secret_len && targets@.len() > 0,
            r matches Err(e) ==> e == (if secret.len() != config.secret_len {
                ConstructionError::InvalidSecretLength
            } else {
                ConstructionError::EmptyTargetList
            }),
            r matches Ok(s) ==> s@ == (SessionView {
                phase: Phase::AwaitingConnectAck,
                idle: 0,
                idle_limit: config.idle_limit,
                auth_text: request_json(RequestView { action: Action::Auth, params: secret@ }),
                subscribe_text: request_json(RequestView {
                    action: Action::Subscribe,
                    params: config.topic_prefix@ + comma_joined(str_views(targets@)),
                }),
            }),
    {
        let auth = match Request::auth_for(config, secret) {
            Ok(req) => req,
            Err(e) => return Err(e),
        };
        let subscribe = match Request::subscribe_for(config, targets) {
            Ok(req) => req,
            Err(e) => return Err(e),
        };
        Ok(Session {
            phase: Phase::AwaitingConnectAck,
            idle: 0,
            idle_limit: config.idle_limit,
            auth_text: auth.to_json(),
            subscribe_text: subscribe.to_json(),
        })
    }

    /// The current phase.
    pub fn phase(&self) -> (r: Phase)
        ensures
            r == self@.phase,
    {
        self.phase
    }

    /// Takes one inbound event and moves the handshake on: the Auth request is
    /// sent only after the connection is acknowledged, the Subscribe request
    /// only after authentication succeeded.
    pub fn on_inbound(&mut self, event: Inbound) -> (cmd: Command)
        ensures
            (final(self)@, cmd@) == transition(old(self)@, reading(event@)),
            rank(old(self)@.phase) <= rank(final(self)@.phase),
    {
        proof {
            lemma_phase_only_advances(self@, reading(event@));
        }
        match self.phase {
            Phase::Streaming => return Command::Stream,
            Phase::Failed(e) => return Command::Stop(e),
            Phase::Closed => return Command::Stop(SessionError::Transport(TransportError::Closed)),
            _ => {},
        }
        let batch = match event {
            Inbound::End => {
                self.phase = Phase::Closed;
                return Command::Stop(SessionError::Transport(TransportError::Closed));
            },
            Inbound::Failed(e) => {
                self.phase = Phase::Failed(SessionError::Transport(e));
                return Command::Stop(SessionError::Transport(e));
            },
            Inbound::Invalid => {
                self.phase = Phase::Failed(SessionError::Decode(DecodeError::MalformedFrame));
                return Command::Stop(SessionError::Decode(DecodeError::MalformedFrame));
            },
            Inbound::Frame(text) => match Response::decode_frame(text.as_str()) {
                Ok(rs) => rs,
                Err(e) => {
                    self.phase = Phase::Failed(SessionError::Decode(e));
                    return Command::Stop(SessionError::Decode(e));
                },
            },
        };
        let acknowledged = match self.phase {
            Phase::AwaitingConnectAck => any_status(&batch, Status::Connected),
            Phase::AwaitingAuthAck => any_status(&batch, Status::AuthSuccess),
            _ => any_status(&batch, Status::Success),
        };
        if acknowledged {
            self.idle = 0;
            match self.phase {
                Phase::AwaitingConnectAck => {
                    self.phase = Phase::AwaitingAuthAck;
                    return Command::Send(self.auth_text.clone());
                },
                Phase::AwaitingAuthAck => {
                    self.phase = Phase::AwaitingSubscribeAck;
                    return Command::Send(self.subscribe_text.clone());
                },
                _ => {
                    self.phase = Phase::Streaming;
                    return Command::Stream;
                },
            }
        }
        if self.phase == Phase::AwaitingAuthAck && any_status(&batch, Status::AuthFailed) {
            self.phase = Phase::Failed(SessionError::AuthenticationRejected);
            return Command::Stop(SessionError::AuthenticationRejected);
        }
        if self.idle < self.idle_limit {
            self.idle = self.idle + 1;
            Command::Receive
        } else {
            self.phase = Phase::Failed(SessionError::HandshakeTimeout);
            Command::Stop(SessionError::HandshakeTimeout)
        }
    }
}

} // verus!

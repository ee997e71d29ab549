use vstd::prelude::*;
use vstd::string::*;

use crate::config::Config;
use crate::transport::{connect_result_view, http_reply_view, HttpClientError, WebsocketError};
use crate::wire::{
    channel_url, channel_url_for, disconnect_body, disconnect_body_text, disconnect_url,
    disconnect_url_for, parse_token_reply, token_reply_outcome, token_request_body,
    token_request_body_for, token_request_url, token_request_url_for,
};

verus! {

/// Whether the realtime channel is open.
#[derive(Clone, Copy, PartialEq, Eq, Structural, Debug)]
pub enum ChannelState {
    Disconnected,
    Connected,
}

/// Why a session could not be started or ended.
#[derive(Debug)]
pub enum ServerError {
    /// The HTTP exchange or the channel connect failed; the detail is opaque.
    TransportFailure(String),
    /// The server refused the token request, or sent a reply of neither shape.
    AuthRejected(String),
}

pub enum ServerErrorView {
    TransportFailure(Seq<char>),
    AuthRejected(Seq<char>),
}

impl View for ServerError {
    type V = ServerErrorView;

    open spec fn view(&self) -> ServerErrorView {
        match self {
            ServerError::TransportFailure(m) => ServerErrorView::TransportFailure(m@),
            ServerError::AuthRejected(m) => ServerErrorView::AuthRejected(m@),
        }
    }
}

impl ServerErrorView {
    pub open spec fn message(self) -> Seq<char> {
        match self {
            ServerErrorView::TransportFailure(m) => m,
            ServerErrorView::AuthRejected(m) => m,
        }
    }
}

impl ServerError {
    /// The error's detail, for the user.
    pub fn message(&self) -> (r: String)
        ensures
            r@ == self@.message(),
    {
        match self {
            ServerError::TransportFailure(m) => m.clone(),
            ServerError::AuthRejected(m) => m.clone(),
        }
    }
}

/// A network request that the session needs done; its outcome is handed back
/// to the session. A POST carries a JSON body (`Content-Type: application/json`).
pub enum Request {
    Post { url: String, body: String },
    Connect { url: String },
}

pub enum RequestView {
    Post { url: Seq<char>, body: Seq<char> },
    Connect { url: Seq<char> },
}

impl View for Request {
    type V = RequestView;

    open spec fn view(&self) -> RequestView {
        match self {
            Request::Post { url, body } => RequestView::Post { url: url@, body: body@ },
            Request::Connect { url } => RequestView::Connect { url: url@ },
        }
    }
}

/// What the session asks for next: a request to perform, or the end of the
/// operation with its outcome.
pub enum Step {
    Pending(Request),
    Done(Result<(), ServerError>),
}

pub enum StepView {
    Pending(RequestView),
    Done(Result<(), ServerErrorView>),
}

impl View for Step {
    type V = StepView;

    open spec fn view(&self) -> StepView {
        match self {
            Step::Pending(request) => StepView::Pending(request@),
            Step::Done(Ok(())) => StepView::Done(Ok(())),
            Step::Done(Err(e)) => StepView::Done(Err(e@)),
        }
    }
}

/// Where the session stands between two calls.
pub enum Phase {
    Idle,
    FetchingToken,
    /// Waiting for the channel to open with this token.
    Connecting(String),
    Disconnecting,
}

pub enum PhaseView {
    Idle,
    FetchingToken,
    Connecting(Seq<char>),
    Disconnecting,
}

/// The session's state: the server settings it was made with, its token
/// (empty when no session is active), the channel and the phase.
pub struct SessionView {
    pub domain: Seq<char>,
    pub email: Seq<char>,
    pub password: Seq<char>,
    pub token: Seq<char>,
    pub channel: ChannelState,
    pub phase: PhaseView,
}

impl SessionView {
    pub open spec fn wf(self) -> bool {
        &&& (self.channel == ChannelState::Connected ==> self.token.len() > 0)
        &&& (self.phase matches PhaseView::Connecting(t) ==> t.len() > 0)
        &&& (self.phase is Disconnecting ==> self.token.len() > 0)
    }

    pub open spec fn with_phase(self, phase: PhaseView) -> SessionView {
        SessionView { phase, ..self }
    }
}

pub open spec fn token_failure_message(detail: Seq<char>) -> Seq<char> {
    "Token request failed: "@ + detail
}

pub open spec fn connect_failure_message(detail: Seq<char>) -> Seq<char> {
    "Channel connection failed: "@ + detail
}

pub open spec fn disconnect_failure_message(detail: Seq<char>) -> Seq<char> {
    "Disconnect request failed: "@ + detail
}

/// Starting a session: fetch a token first if none is held, else connect at once.
pub open spec fn start_session_spec(s: SessionView) -> (SessionView, StepView) {
    if s.token.len() == 0 {
        (
            s.with_phase(PhaseView::FetchingToken),
            StepView::Pending(
                RequestView::Post {
                    url: token_request_url(s.domain),
                    body: token_request_body(s.email, s.password),
                },
            ),
        )
    } else {
        (
            s.with_phase(PhaseView::Connecting(s.token)),
            StepView::Pending(RequestView::Connect { url: channel_url(s.domain, s.token) }),
        )
    }
}

/// Ending a session: nothing to do without a token, else ask the server to
/// disconnect.
pub open spec fn end_session_spec(s: SessionView) -> (SessionView, StepView) {
    if s.token.len() == 0 {
        (s, StepView::Done(Ok(())))
    } else {
        (
            s.with_phase(PhaseView::Disconnecting),
            StepView::Pending(
                RequestView::Post { url: disconnect_url(s.domain), body: disconnect_body() },
            ),
        )
    }
}

/// The answer to a POST: a token reply while fetching, or the disconnect's.
/// A failure leaves token and channel as they were.
pub open spec fn http_reply_spec(s: SessionView, reply: Result<Seq<char>, Seq<char>>) -> (
    SessionView,
    StepView,
) {
    let idle = s.with_phase(PhaseView::Idle);
    match s.phase {
        PhaseView::FetchingToken => match reply {
            Err(detail) => (
                idle,
                StepView::Done(Err(ServerErrorView::TransportFailure(token_failure_message(detail)))),
            ),
            Ok(body) => match token_reply_outcome(body) {
                Ok(token) => (
                    s.with_phase(PhaseView::Connecting(token)),
                    StepView::Pending(RequestView::Connect { url: channel_url(s.domain, token) }),
                ),
                Err(e) => (idle, StepView::Done(Err(e))),
            },
        },
        PhaseView::Disconnecting => match reply {
            Err(detail) => (
                idle,
                StepView::Done(
                    Err(ServerErrorView::TransportFailure(disconnect_failure_message(detail))),
                ),
            ),
            Ok(_) => (
                SessionView {
                    token: Seq::empty(),
                    channel: ChannelState::Disconnected,
                    phase: PhaseView::Idle,
                    ..s
                },
                StepView::Done(Ok(())),
            ),
        },
        _ => (s, StepView::Done(Ok(()))),
    }
}

/// The outcome of a channel connect: on success the token is kept and the
/// channel is open; on failure token and channel stay as they were.
pub open spec fn connect_result_spec(s: SessionView, result: Result<(), Seq<char>>) -> (
    SessionView,
    StepView,
) {
    match s.phase {
        PhaseView::Connecting(token) => match result {
            Ok(()) => (
                SessionView {
                    token,
                    channel: ChannelState::Connected,
                    phase: PhaseView::Idle,
                    ..s
                },
                StepView::Done(Ok(())),
            ),
            Err(detail) => (
                s.with_phase(PhaseView::Idle),
                StepView::Done(
                    Err(ServerErrorView::TransportFailure(connect_failure_message(detail))),
                ),
            ),
        },
        _ => (s, StepView::Done(Ok(()))),
    }
}

/// A session for the server that `config` names, with no token and its
/// channel closed.
pub open spec fn fresh_session<C: Config>(config: &C) -> SessionView {
    SessionView {
        domain: config.domain(),
        email: config.login_email(),
        password: config.login_password(),
        token: Seq::empty(),
        channel: ChannelState::Disconnected,
        phase: PhaseView::Idle,
    }
}

/// The session orchestrator: owns the token lifecycle against one lobby server.
pub struct TeiServer {
    domain: String,
    email: String,
    password: String,
    token: String,
    channel: ChannelState,
    phase: Phase,
}

impl View for TeiServer {
    type V = SessionView;

    closed spec fn view(&self) -> SessionView {
        SessionView {
            domain: self.domain@,
            email: self.email@,
            password: self.password@,
            token: self.token@,
            channel: self.channel,
            phase: match self.phase {
                Phase::Idle => PhaseView::Idle,
                Phase::FetchingToken => PhaseView::FetchingToken,
                Phase::Connecting(t) => PhaseView::Connecting(t@),
                Phase::Disconnecting => PhaseView::Disconnecting,
            },
        }
    }
}

fn prefixed(prefix: &str, detail: &str) -> (r: String)
    ensures
        r@ == prefix@ + detail@,
{
    let mut text = String::from_str(prefix);
    text.append(detail);
    text
}

impl TeiServer {
    /// A session with no token, its channel closed, for the server that
    /// `config` names.
    pub fn new<C: Config>(config: &C) -> (r: TeiServer)
        ensures
            r@ == fresh_session(config),
            r@.wf(),
    {
        TeiServer {
            domain: String::from_str(config.get_server_domain()),
            email: String::from_str(config.get_server_login_email()),
            password: String::from_str(config.get_server_login_password()),
            token: String::new(),
            channel: ChannelState::Disconnected,
            phase: Phase::Idle,
        }
    }

    pub fn token(&self) -> (r: &str)
        ensures
            r@ == self@.token,
    {
        self.token.as_str()
    }

    pub fn channel_state(&self) -> (r: ChannelState)
        ensures
            r == self@.channel,
    {
        self.channel
    }

    /// No operation is under way.
    pub fn is_idle(&self) -> (r: bool)
        ensures
            r == (self@.phase is Idle),
    {
        match self.phase {
            Phase::Idle => true,
            _ => false,
        }
    }

    /// The session waits for the answer to a POST.
    pub fn awaits_http_reply(&self) -> (r: bool)
        ensures
            r == (self@.phase is FetchingToken || self@.phase is Disconnecting),
    {
        match self.phase {
            Phase::FetchingToken => true,
            Phase::Disconnecting => true,
            _ => false,
        }
    }

    /// The session waits for the outcome of a channel connect.
    pub fn awaits_connect_result(&self) -> (r: bool)
        ensures
            r == (self@.phase is Connecting),
    {
        match self.phase {
            Phase::Connecting(_) => true,
            _ => false,
        }
    }

    /// Begins starting the session. Every call that reaches the connect
    /// opens the channel again, also when one is open already.
    pub fn start_session(&mut self) -> (r: Step)
        requires
            old(self)@.wf(),
            old(self)@.phase is Idle,
        ensures
            (final(self)@, r@) == start_session_spec(old(self)@),
            final(self)@.wf(),
    {
        if self.token.as_str().is_empty() {
            self.phase = Phase::FetchingToken;
            let url = token_request_url_for(self.domain.as_str());
            let body = token_request_body_for(self.email.as_str(), self.password.as_str());
            Step::Pending(Request::Post { url, body })
        } else {
            self.phase = Phase::Connecting(self.token.clone());
            let url = channel_url_for(self.domain.as_str(), self.token.as_str());
            Step::Pending(Request::Connect { url })
        }
    }

    /// Begins ending the session.
    pub fn end_session(&mut self) -> (r: Step)
        requires
            old(self)@.wf(),
            old(self)@.phase is Idle,
        ensures
            (final(self)@, r@) == end_session_spec(old(self)@),
            final(self)@.wf(),
    {
        if self.token.as_str().is_empty() {
            Step::Done(Ok(()))
        } else {
            self.phase = Phase::Disconnecting;
            let url = disconnect_url_for(self.domain.as_str());
            Step::Pending(Request::Post { url, body: disconnect_body_text() })
        }
    }

    /// Hands the session the answer to the POST it asked for.
    pub fn on_http_reply(&mut self, reply: Result<String, HttpClientError>) -> (r: Step)
        requires
            old(self)@.wf(),
            old(self)@.phase is FetchingToken || old(self)@.phase is Disconnecting,
        ensures
            (final(self)@, r@) == http_reply_spec(old(self)@, http_reply_view(reply)),
            final(self)@.wf(),
    {
        match self.phase {
            Phase::FetchingToken => {
                self.phase = Phase::Idle;
                match reply {
                    Err(HttpClientError::RequestFailed(detail)) => {
                        let message = prefixed("Token request failed: ", detail.as_str());
                        Step::Done(Err(ServerError::TransportFailure(message)))
                    },
                    Ok(body) => match parse_token_reply(body.as_str()) {
                        Ok(token) => {
                            let url = channel_url_for(self.domain.as_str(), token.as_str());
                            self.phase = Phase::Connecting(token);
                            Step::Pending(Request::Connect { url })
                        },
                        Err(e) => Step::Done(Err(e)),
                    },
                }
            },
            _ => {
                self.phase = Phase::Idle;
                match reply {
                    Err(HttpClientError::RequestFailed(detail)) => {
                        let message = prefixed("Disconnect request failed: ", detail.as_str());
                        Step::Done(Err(ServerError::TransportFailure(message)))
                    },
                    Ok(_) => {
                        self.token = String::new();
                        self.channel = ChannelState::Disconnected;
                        Step::Done(Ok(()))
                    },
                }
            },
        }
    }

    /// Hands the session the outcome of the channel connect it asked for.
    pub fn on_connect_result(&mut self, result: Result<(), WebsocketError>) -> (r: Step)
        requires
            old(self)@.wf(),
            old(self)@.phase is Connecting,
        ensures
            (final(self)@, r@) == connect_result_spec(old(self)@, connect_result_view(result)),
            final(self)@.wf(),
    {
        let token = match &self.phase {
            Phase::Connecting(t) => t.clone(),
            _ => String::new(),
        };
        self.phase = Phase::Idle;
        match result {
            Ok(()) => {
                self.token = token;
                self.channel = ChannelState::Connected;
                Step::Done(Ok(()))
            },
            Err(WebsocketError::Connection(detail)) => {
                let message = prefixed("Channel connection failed: ", detail.as_str());
                Step::Done(Err(ServerError::TransportFailure(message)))
            },
        }
    }
}

} // verus!

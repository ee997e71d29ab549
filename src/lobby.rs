use vstd::prelude::*;
use vstd::string::*;

use crate::config::{Config, ConfigError};
use crate::launch::{launch_plan, launch_plan_of, EnvironmentError, LaunchError, LaunchPlan, LaunchPlanView};
use crate::session::{
    connect_result_spec, end_session_spec, http_reply_spec, start_session_spec, Request,
    RequestView, ServerError, ServerErrorView, ChannelState, SessionView, Step, StepView, TeiServer, fresh_session,
};
use crate::transport::{connect_result_view, http_reply_view, HttpClientError, WebsocketError};

verus! {

/// The first failure of a game run.
#[derive(Debug)]
pub enum LobbyError {
    Spring(LaunchError),
    Environment(EnvironmentError),
    Config(ConfigError),
    Server(ServerError),
}

pub enum LobbyErrorView {
    Spring(Seq<char>),
    Environment(Seq<char>),
    Config(Seq<char>),
    Server(ServerErrorView),
}

impl View for LobbyError {
    type V = LobbyErrorView;

    open spec fn view(&self) -> LobbyErrorView {
        match self {
            LobbyError::Spring(e) => LobbyErrorView::Spring(e@),
            LobbyError::Environment(e) => LobbyErrorView::Environment(e@),
            LobbyError::Config(ConfigError::BuildError(d)) => LobbyErrorView::Config(d@),
            LobbyError::Server(e) => LobbyErrorView::Server(e@),
        }
    }
}

impl LobbyErrorView {
    pub open spec fn message(self) -> Seq<char> {
        match self {
            LobbyErrorView::Spring(detail) => detail,
            LobbyErrorView::Environment(detail) => detail,
            LobbyErrorView::Config(detail) => detail,
            LobbyErrorView::Server(e) => e.message(),
        }
    }
}

impl LobbyError {
    /// The detail of the failure, for the user.
    pub fn message(&self) -> (r: String)
        ensures
            r@ == self@.message(),
    {
        match self {
            LobbyError::Spring(LaunchError::LaunchFail(detail)) => detail.clone(),
            LobbyError::Environment(EnvironmentError::EnvarRetrievalFailure(detail)) => detail.clone(),
            LobbyError::Config(ConfigError::BuildError(detail)) => detail.clone(),
            LobbyError::Server(e) => e.message(),
        }
    }
}

/// Plans the engine's launch from the configured relative paths.
pub struct Lobby {
    spring_relative_path: String,
    start_script_relative_path: String,
    write_dir_relative_path: String,
}

/// The three relative paths a lobby plans with: engine, write directory, start script.
pub struct LobbyView {
    pub spring: Seq<char>,
    pub write_dir: Seq<char>,
    pub start_script: Seq<char>,
}

impl View for Lobby {
    type V = LobbyView;

    closed spec fn view(&self) -> LobbyView {
        LobbyView {
            spring: self.spring_relative_path@,
            write_dir: self.write_dir_relative_path@,
            start_script: self.start_script_relative_path@,
        }
    }
}

pub open spec fn lobby_for<C: Config>(config: &C) -> LobbyView {
    LobbyView {
        spring: config.spring_path(),
        write_dir: config.write_dir_path(),
        start_script: config.start_script_path(),
    }
}

pub open spec fn lobby_plan(lobby: LobbyView, root: Seq<char>) -> LaunchPlanView {
    launch_plan_of(root, lobby.spring, lobby.write_dir, lobby.start_script)
}

impl Lobby {
    pub fn new<C: Config>(config: &C) -> (r: Lobby)
        ensures
            r@ == lobby_for(config),
    {
        Lobby {
            spring_relative_path: String::from_str(config.get_spring_relative_path()),
            start_script_relative_path: String::from_str(config.get_start_script_relative_path()),
            write_dir_relative_path: String::from_str(config.get_write_dir_relative_path()),
        }
    }

    /// The launch plan under the resolved working directory, or the
    /// environment's failure.
    pub fn start_game(&self, current_dir: Result<String, EnvironmentError>) -> (r: Result<
        LaunchPlan,
        LobbyError,
    >)
        ensures
            match current_dir {
                Ok(root) => r matches Ok(plan) && plan@ == lobby_plan(self@, root@),
                Err(e) => r matches Err(LobbyError::Environment(e2)) && e2@ == e@,
            },
    {
        match current_dir {
            Ok(root) => Ok(
                launch_plan(
                    root.as_str(),
                    self.spring_relative_path.as_str(),
                    self.write_dir_relative_path.as_str(),
                    self.start_script_relative_path.as_str(),
                ),
            ),
            Err(e) => Err(LobbyError::Environment(e)),
        }
    }
}

/// Where a game run stands.
#[derive(Clone, Copy, PartialEq, Eq, Structural, Debug)]
pub enum Stage {
    Ready,
    StartingSession,
    ResolvingDir,
    Launching,
    EndingSession,
    Finished,
}

/// The outside work a game run asks for next, or its end.
pub enum Action {
    Session(Request),
    ResolveDir,
    Launch(LaunchPlan),
    Finished(Result<(), LobbyError>),
}

pub enum ActionView {
    Session(RequestView),
    ResolveDir,
    Launch(LaunchPlanView),
    Finished(Result<(), LobbyErrorView>),
}

impl View for Action {
    type V = ActionView;

    open spec fn view(&self) -> ActionView {
        match self {
            Action::Session(request) => ActionView::Session(request@),
            Action::ResolveDir => ActionView::ResolveDir,
            Action::Launch(plan) => ActionView::Launch(plan@),
            Action::Finished(Ok(())) => ActionView::Finished(Ok(())),
            Action::Finished(Err(e)) => ActionView::Finished(Err(e@)),
        }
    }
}

/// The outcome of the outside work a game run asked for.
pub enum Event {
    HttpReply(Result<String, HttpClientError>),
    ConnectResult(Result<(), WebsocketError>),
    CurrentDir(Result<String, EnvironmentError>),
    LaunchResult(Result<(), LaunchError>),
}

pub enum EventView {
    HttpReply(Result<Seq<char>, Seq<char>>),
    ConnectResult(Result<(), Seq<char>>),
    CurrentDir(Result<Seq<char>, Seq<char>>),
    LaunchResult(Result<(), Seq<char>>),
}

impl View for Event {
    type V = EventView;

    open spec fn view(&self) -> EventView {
        match self {
            Event::HttpReply(reply) => EventView::HttpReply(http_reply_view(*reply)),
            Event::ConnectResult(result) => EventView::ConnectResult(connect_result_view(*result)),
            Event::CurrentDir(Ok(root)) => EventView::CurrentDir(Ok(root@)),
            Event::CurrentDir(Err(e)) => EventView::CurrentDir(Err(e@)),
            Event::LaunchResult(Ok(())) => EventView::LaunchResult(Ok(())),
            Event::LaunchResult(Err(e)) => EventView::LaunchResult(Err(e@)),
        }
    }
}

pub struct AutohostView {
    pub server: SessionView,
    pub lobby: LobbyView,
    pub stage: Stage,
}

impl AutohostView {
    pub open spec fn wf(self) -> bool {
        &&& self.server.wf()
        &&& (self.stage == Stage::StartingSession || self.stage == Stage::EndingSession)
            <==> !(self.server.phase is Idle)
        &&& self.stage == Stage::StartingSession ==> !(self.server.phase is Disconnecting)
        &&& self.stage == Stage::EndingSession ==> self.server.phase is Disconnecting
        &&& (self.stage == Stage::ResolvingDir || self.stage == Stage::Launching)
            ==> self.server.channel == ChannelState::Connected
    }

    /// The event is the outcome of the work last asked for.
    pub open spec fn expects(self, event: EventView) -> bool {
        match event {
            EventView::HttpReply(_) => (self.stage == Stage::StartingSession || self.stage
                == Stage::EndingSession) && (self.server.phase is FetchingToken
                || self.server.phase is Disconnecting),
            EventView::ConnectResult(_) => self.stage == Stage::StartingSession
                && self.server.phase is Connecting,
            EventView::CurrentDir(_) => self.stage == Stage::ResolvingDir,
            EventView::LaunchResult(_) => self.stage == Stage::Launching,
        }
    }
}

/// Carries a session step into the run: a pending request is passed on; the
/// end of the session start moves on to resolving the directory, the end of
/// the session end finishes the run; a failure finishes it at once.
pub open spec fn session_progress(a: AutohostView, server: SessionView, step: StepView) -> (
    AutohostView,
    ActionView,
) {
    let next = AutohostView { server, ..a };
    match step {
        StepView::Pending(request) => (next, ActionView::Session(request)),
        StepView::Done(Err(e)) => (
            AutohostView { stage: Stage::Finished, ..next },
            ActionView::Finished(Err(LobbyErrorView::Server(e))),
        ),
        StepView::Done(Ok(())) => if a.stage == Stage::StartingSession {
            (AutohostView { stage: Stage::ResolvingDir, ..next }, ActionView::ResolveDir)
        } else {
            (AutohostView { stage: Stage::Finished, ..next }, ActionView::Finished(Ok(())))
        },
    }
}

/// A game run begins by starting the session.
pub open spec fn start_game_spec(a: AutohostView) -> (AutohostView, ActionView) {
    let started = start_session_spec(a.server);
    session_progress(AutohostView { stage: Stage::StartingSession, ..a }, started.0, started.1)
}

/// One step of a game run: session start, working directory, launch, session
/// end, in this order, each only after the one before it succeeded.
pub open spec fn on_event_spec(a: AutohostView, event: EventView) -> (AutohostView, ActionView) {
    match event {
        EventView::HttpReply(reply) => {
            let next = http_reply_spec(a.server, reply);
            session_progress(a, next.0, next.1)
        },
        EventView::ConnectResult(result) => {
            let next = connect_result_spec(a.server, result);
            session_progress(a, next.0, next.1)
        },
        EventView::CurrentDir(Ok(root)) => (
            AutohostView { stage: Stage::Launching, ..a },
            ActionView::Launch(lobby_plan(a.lobby, root)),
        ),
        EventView::CurrentDir(Err(e)) => (
            AutohostView { stage: Stage::Finished, ..a },
            ActionView::Finished(Err(LobbyErrorView::Environment(e))),
        ),
        EventView::LaunchResult(Ok(())) => {
            let ended = end_session_spec(a.server);
            session_progress(AutohostView { stage: Stage::EndingSession, ..a }, ended.0, ended.1)
        },
        EventView::LaunchResult(Err(e)) => (
            AutohostView { stage: Stage::Finished, ..a },
            ActionView::Finished(Err(LobbyErrorView::Spring(e))),
        ),
    }
}

/// The game-session coordinator: starts the session, launches the engine,
/// ends the session, and stops at the first failure.
pub struct Autohost {
    server: TeiServer,
    lobby: Lobby,
    stage: Stage,
}

impl View for Autohost {
    type V = AutohostView;

    closed spec fn view(&self) -> AutohostView {
        AutohostView { server: self.server@, lobby: self.lobby@, stage: self.stage }
    }
}

impl Autohost {
    pub fn new<C: Config>(config: &C) -> (r: Autohost)
        ensures
            r@.server == fresh_session(config),
            r@.lobby == lobby_for(config),
            r@.stage == Stage::Ready,
            r@.wf(),
    {
        Autohost { server: TeiServer::new(config), lobby: Lobby::new(config), stage: Stage::Ready }
    }

    pub fn stage(&self) -> (r: Stage)
        ensures
            r == self@.stage,
    {
        self.stage
    }

    pub fn server(&self) -> (r: &TeiServer)
        ensures
            r@ == self@.server,
    {
        &self.server
    }

    /// The event is the outcome of the work last asked for.
    pub fn expects(&self, event: &Event) -> (r: bool)
        ensures
            r == self@.expects(event@),
    {
        match event {
            Event::HttpReply(_) => (self.stage == Stage::StartingSession || self.stage
                == Stage::EndingSession) && self.server.awaits_http_reply(),
            Event::ConnectResult(_) => self.stage == Stage::StartingSession
                && self.server.awaits_connect_result(),
            Event::CurrentDir(_) => self.stage == Stage::ResolvingDir,
            Event::LaunchResult(_) => self.stage == Stage::Launching,
        }
    }

    fn progress(&mut self, step: Step) -> (r: Action)
        requires
            old(self).stage == Stage::StartingSession || old(self).stage == Stage::EndingSession,
            old(self)@.server.wf(),
            step is Pending <==> !(old(self)@.server.phase is Idle),
        ensures
            (final(self)@, r@) == session_progress(old(self)@, old(self)@.server, step@),
    {
        match step {
            Step::Pending(request) => Action::Session(request),
            Step::Done(Err(e)) => {
                self.stage = Stage::Finished;
                Action::Finished(Err(LobbyError::Server(e)))
            },
            Step::Done(Ok(())) => {
                if self.stage == Stage::StartingSession {
                    self.stage = Stage::ResolvingDir;
                    Action::ResolveDir
                } else {
                    self.stage = Stage::Finished;
                    Action::Finished(Ok(()))
                }
            },
        }
    }

    /// Begins the game run.
    pub fn start_game(&mut self) -> (r: Action)
        requires
            old(self)@.wf(),
            old(self)@.stage == Stage::Ready,
        ensures
            (final(self)@, r@) == start_game_spec(old(self)@),
            final(self)@.wf(),
    {
        self.stage = Stage::StartingSession;
        let step = self.server.start_session();
        self.progress(step)
    }

    /// Hands the run the outcome of the work it asked for.
    pub fn on_event(&mut self, event: Event) -> (r: Action)
        requires
            old(self)@.wf(),
            old(self)@.expects(event@),
        ensures
            (final(self)@, r@) == on_event_spec(old(self)@, event@),
            final(self)@.wf(),
    {
        match event {
            Event::HttpReply(reply) => {
                let step = self.server.on_http_reply(reply);
                self.progress(step)
            },
            Event::ConnectResult(result) => {
                let step = self.server.on_connect_result(result);
                self.progress(step)
            },
            Event::CurrentDir(current_dir) => match self.lobby.start_game(current_dir) {
                Ok(plan) => {
                    self.stage = Stage::Launching;
                    Action::Launch(plan)
                },
                Err(e) => {
                    self.stage = Stage::Finished;
                    Action::Finished(Err(e))
                },
            },
            Event::LaunchResult(Ok(())) => {
                self.stage = Stage::EndingSession;
                let step = self.server.end_session();
                self.progress(step)
            },
            Event::LaunchResult(Err(e)) => {
                self.stage = Stage::Finished;
                Action::Finished(Err(LobbyError::Spring(e)))
            },
        }
    }
}

} // verus!

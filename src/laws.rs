use vstd::prelude::*;

use crate::lobby::{start_game_spec, on_event_spec, ActionView, AutohostView, EventView, LobbyErrorView, Stage};
use crate::session::{
    connect_result_spec, end_session_spec, http_reply_spec, start_session_spec, ChannelState,
    RequestView, ServerErrorView, SessionView, StepView,
};
use crate::wire::{
    channel_url, disconnect_body, disconnect_url, error_reply_of, percent_encoded, rejected_message, success_reply_of,
    token_reply_outcome, token_request_body, token_request_url,
};

verus! {

/// `part` occurs in `text`.
pub open spec fn contains(text: Seq<char>, part: Seq<char>) -> bool {
    exists|i: int| 0 <= i && i + part.len() <= text.len() && #[trigger] text.subrange(i, i + part.len()) == part
}

/// Drives a session from `step` for at most `fuel` requests, answering every
/// POST with `reply` and every connect with `connect`. Gives the session it
/// leaves, the requests made in order, and the last step.
pub open spec fn run_session(
    s: SessionView,
    step: StepView,
    reply: Result<Seq<char>, Seq<char>>,
    connect: Result<(), Seq<char>>,
    fuel: nat,
) -> (SessionView, Seq<RequestView>, StepView)
    decreases fuel,
{
    if fuel == 0 {
        (s, Seq::empty(), step)
    } else {
        match step {
            StepView::Pending(request) => {
                let next = match request {
                    RequestView::Post { .. } => http_reply_spec(s, reply),
                    RequestView::Connect { .. } => connect_result_spec(s, connect),
                };
                let rest = run_session(next.0, next.1, reply, connect, (fuel - 1) as nat);
                (rest.0, seq![request] + rest.1, rest.2)
            },
            StepView::Done(_) => (s, Seq::empty(), step),
        }
    }
}

/// A whole `start_session` call: the first step and what follows it.
pub open spec fn start_run(
    s: SessionView,
    reply: Result<Seq<char>, Seq<char>>,
    connect: Result<(), Seq<char>>,
) -> (SessionView, Seq<RequestView>, StepView) {
    let first = start_session_spec(s);
    run_session(first.0, first.1, reply, connect, 3)
}

/// The token a token reply grants, if it grants one.
pub open spec fn granted(reply: Result<Seq<char>, Seq<char>>) -> Option<Seq<char>> {
    match reply {
        Ok(body) => match token_reply_outcome(body) {
            Ok(token) => Some(token),
            Err(_) => None,
        },
        Err(_) => None,
    }
}

/// Without a token, starting a session makes exactly one token request and
/// then, if a token was granted, exactly one channel connect carrying it, and
/// nothing else; the start always comes to an end.
pub proof fn lemma_start_without_token(
    s: SessionView,
    reply: Result<Seq<char>, Seq<char>>,
    connect: Result<(), Seq<char>>,
)
    requires
        s.wf(),
        s.phase is Idle,
        s.token.len() == 0,
    ensures
        start_run(s, reply, connect).2 is Done,
        granted(reply) matches Some(token) ==> start_run(s, reply, connect).1 == seq![
            RequestView::Post {
                url: token_request_url(s.domain),
                body: token_request_body(s.email, s.password),
            },
            RequestView::Connect { url: channel_url(s.domain, token) },
        ],
        granted(reply) is None ==> start_run(s, reply, connect).1 == seq![
            RequestView::Post {
                url: token_request_url(s.domain),
                body: token_request_body(s.email, s.password),
            },
        ],
{
    reveal_with_fuel(run_session, 4);
    let first = start_session_spec(s);
    let second = http_reply_spec(first.0, reply);
    if granted(reply) is Some {
        let third = connect_result_spec(second.0, connect);
        assert(run_session(third.0, third.1, reply, connect, 1).1 =~= Seq::<RequestView>::empty());
        assert(run_session(second.0, second.1, reply, connect, 2).1 =~= seq![second.1->Pending_0]);
    } else {
        assert(run_session(second.0, second.1, reply, connect, 2).1 =~= Seq::<RequestView>::empty());
    }
}

/// With a token held, starting a session makes no token request and exactly
/// one channel connect, carrying that token.
pub proof fn lemma_start_with_token(
    s: SessionView,
    reply: Result<Seq<char>, Seq<char>>,
    connect: Result<(), Seq<char>>,
)
    requires
        s.wf(),
        s.phase is Idle,
        s.token.len() > 0,
    ensures
        start_run(s, reply, connect).2 is Done,
        start_run(s, reply, connect).1 == seq![
            RequestView::Connect { url: channel_url(s.domain, s.token) },
        ],
{
    reveal_with_fuel(run_session, 4);
    let first = start_session_spec(s);
    let second = connect_result_spec(first.0, connect);
    assert(run_session(second.0, second.1, reply, connect, 2).1 =~= Seq::<RequestView>::empty());
}

/// A session start that fails leaves the session as it found it, so it can be
/// tried again; one that succeeds leaves the token it connected with and the
/// channel open.
pub proof fn lemma_start_outcome(
    s: SessionView,
    reply: Result<Seq<char>, Seq<char>>,
    connect: Result<(), Seq<char>>,
)
    requires
        s.wf(),
        s.phase is Idle,
    ensures
        start_run(s, reply, connect).2 matches StepView::Done(Err(_)) ==> start_run(
            s,
            reply,
            connect,
        ).0 == s,
        start_run(s, reply, connect).2 matches StepView::Done(Ok(())) ==> {
            let last = start_run(s, reply, connect).0;
            &&& last.token.len() > 0
            &&& last.channel == ChannelState::Connected
            &&& last.phase is Idle
            &&& s.token.len() > 0 ==> last.token == s.token
            &&& s.token.len() == 0 ==> granted(reply) == Some(last.token)
        },
{
    reveal_with_fuel(run_session, 4);
}

/// A failed token request fails the start with a transport failure and
/// leaves the token empty.
pub proof fn lemma_token_transport_failure(
    s: SessionView,
    detail: Seq<char>,
    connect: Result<(), Seq<char>>,
)
    requires
        s.wf(),
        s.phase is Idle,
        s.token.len() == 0,
    ensures
        start_run(s, Err(detail), connect).2 matches StepView::Done(
            Err(ServerErrorView::TransportFailure(_)),
        ),
        start_run(s, Err(detail), connect).0.token.len() == 0,
{
    reveal_with_fuel(run_session, 4);
}

/// A reply that reads only as the error shape fails the start with a message
/// that contains the server's detail.
pub proof fn lemma_rejection_carries_detail(
    s: SessionView,
    body: Seq<char>,
    connect: Result<(), Seq<char>>,
)
    requires
        s.wf(),
        s.phase is Idle,
        s.token.len() == 0,
        success_reply_of(body) is None,
        error_reply_of(body) is Some,
    ensures
        start_run(s, Ok(body), connect).2 matches StepView::Done(
            Err(ServerErrorView::AuthRejected(message)),
        ) && contains(message, error_reply_of(body)->0),
{
    reveal_with_fuel(run_session, 4);
    let detail = error_reply_of(body)->0;
    let message = rejected_message(detail);
    let at = message.len() - detail.len();
    assert(message.subrange(at, at + detail.len()) =~= detail);
}

/// A reply of the success shape with a non-empty token leads to a channel
/// connect whose address contains the token percent-encoded.
pub proof fn lemma_connect_carries_token(
    s: SessionView,
    body: Seq<char>,
    connect: Result<(), Seq<char>>,
)
    requires
        s.wf(),
        s.phase is Idle,
        s.token.len() == 0,
        success_reply_of(body) matches Some(pair) && pair.1.len() > 0,
    ensures
        start_run(s, Ok(body), connect).1.len() == 2,
        start_run(s, Ok(body), connect).1[1] matches RequestView::Connect { url } && contains(
            url,
            percent_encoded((success_reply_of(body)->0).1),
        ),
{
    lemma_start_without_token(s, Ok(body), connect);
    let token = (success_reply_of(body)->0).1;
    let url = channel_url(s.domain, token);
    let at = ("wss://"@ + s.domain + "/tachyon/websocket/?token="@).len() as int;
    let encoded = percent_encoded(token);
    assert(url.subrange(at, at + encoded.len()) =~= encoded);
}

/// Ending a session that holds no token makes no request and changes nothing.
pub proof fn lemma_end_without_token(s: SessionView)
    requires
        s.token.len() == 0,
    ensures
        end_session_spec(s) == (s, StepView::Done(Ok(()))),
{
}

/// Ending a session that holds a token makes exactly one request, the
/// disconnect POST. If it is answered, whatever the answer, the token is
/// cleared and the channel closed; if it fails, the session stays as it was.
pub proof fn lemma_end_with_token(s: SessionView, reply: Result<Seq<char>, Seq<char>>, connect: Result<(), Seq<char>>)
    requires
        s.wf(),
        s.phase is Idle,
        s.token.len() > 0,
    ensures
        ({
            let first = end_session_spec(s);
            let run = run_session(first.0, first.1, reply, connect, 2);
            &&& run.1 == seq![RequestView::Post { url: disconnect_url(s.domain), body: disconnect_body() }]
            &&& reply is Ok ==> run.2 == StepView::Done(Ok(())) && run.0.token.len() == 0
                && run.0.channel == ChannelState::Disconnected
            &&& reply is Err ==> (run.2 matches StepView::Done(Err(ServerErrorView::TransportFailure(_)))
                && run.0 == s)
        }),
{
    reveal_with_fuel(run_session, 3);
    let first = end_session_spec(s);
    let second = http_reply_spec(first.0, reply);
    assert(run_session(second.0, second.1, reply, connect, 1).1 =~= Seq::<RequestView>::empty());
}

/// A game run launches the engine only once the session has been started:
/// while the directory is resolved and the engine launched, the channel is open.
pub proof fn lemma_launch_follows_session_start(a: AutohostView, event: EventView)
    requires
        a.wf(),
        a.expects(event),
    ensures
        on_event_spec(a, event).1 is Launch ==> a.server.channel == ChannelState::Connected
            && a.stage == Stage::ResolvingDir,
        on_event_spec(a, event).0.wf(),
{
}

/// A game run whose token request fails finishes at once with that failure:
/// the directory is not resolved and nothing is launched.
pub proof fn lemma_run_stops_on_token_failure(a: AutohostView, detail: Seq<char>)
    requires
        a.wf(),
        a.stage == Stage::Ready,
        a.server.token.len() == 0,
    ensures
        start_game_spec(a).0.expects(EventView::HttpReply(Err(detail))),
        on_event_spec(start_game_spec(a).0, EventView::HttpReply(Err(detail))).0.stage
            == Stage::Finished,
        on_event_spec(start_game_spec(a).0, EventView::HttpReply(Err(detail))).1 matches ActionView::Finished(
            Err(LobbyErrorView::Server(ServerErrorView::TransportFailure(_))),
        ),
{
}

} // verus!

//! How a page makes a request that needs a token. It sends the request with
//! the stored access token; if the server answers 401 it renews the access
//! token with the refresh token and sends the request once more. Without an
//! access token it renews first; without either token it gives up. The
//! decisions are a function from the flow's state and what just happened to
//! the next state and what to do; the page performs the requests.
use vstd::prelude::*;

verus! {

/// Where a request with a token stands.
#[derive(Debug)]
pub enum AuthFlow {
    /// Nothing read yet.
    Start,
    /// Sent with the stored access token; the stored refresh token is kept
    /// for a renewal.
    FirstTry { refresh: Option<String> },
    /// Renewing the access token.
    Refreshing,
    /// Sent again with the renewed access token.
    Retrying,
    /// Over.
    Done,
}

/// What just happened.
#[derive(Debug)]
pub enum AuthEvent {
    /// The stored tokens were read.
    Stored { access: Option<String>, refresh: Option<String> },
    /// The request sent with a token was answered with this status.
    Answered(u16),
    /// The access token was renewed; this is the access token now stored.
    Refreshed(Option<String>),
}

/// Why the flow gave up.
#[derive(Debug, Clone, Copy, PartialEq, Eq, Structural)]
pub enum AuthFlowError {
    /// Neither an access nor a refresh token is stored.
    NoToken,
    /// The first answer was neither 200 nor 401.
    UnexpectedStatus(u16),
}

/// What to do next.
#[derive(Debug)]
pub enum AuthAction {
    /// Send the request with this token.
    Send(String),
    /// Renew the access token with this refresh token.
    Refresh(String),
    /// The last answer is the result.
    Accept,
    /// Give up.
    Fail(AuthFlowError),
}

/// The events that the flow can take in each state: an answer comes to a
/// request that was sent, a renewal follows a request to renew, and a 401 to
/// the first try comes where a refresh token is stored, the renewed access
/// token is stored.
pub open spec fn accepts(state: AuthFlow, event: AuthEvent) -> bool {
    match state {
        AuthFlow::Start => event is Stored,
        AuthFlow::FirstTry { refresh } => event matches AuthEvent::Answered(code) && (code == 401
            ==> refresh is Some),
        AuthFlow::Refreshing => event matches AuthEvent::Refreshed(a) && a is Some,
        AuthFlow::Retrying => event is Answered,
        AuthFlow::Done => false,
    }
}

/// How far the flow is from its end.
pub open spec fn rank(state: AuthFlow) -> nat {
    match state {
        AuthFlow::Start => 4,
        AuthFlow::FirstTry { .. } => 3,
        AuthFlow::Refreshing => 2,
        AuthFlow::Retrying => 1,
        AuthFlow::Done => 0,
    }
}

/// The text of an optional token, by its view.
pub open spec fn token_view(t: Option<String>) -> Option<Seq<char>> {
    match t {
        Some(s) => Some(s@),
        None => None,
    }
}

/// The next state and what to do, as plain values.
pub open spec fn step_spec(state: AuthFlow, event: AuthEvent) -> (nat, AuthActionView) {
    match (state, event) {
        (AuthFlow::Start, AuthEvent::Stored { access, refresh }) => match (access, refresh) {
            (Some(a), _) => (3, AuthActionView::Send(a@)),
            (None, Some(r)) => (2, AuthActionView::Refresh(r@)),
            (None, None) => (0, AuthActionView::Fail(AuthFlowError::NoToken)),
        },
        (AuthFlow::FirstTry { refresh }, AuthEvent::Answered(code)) => if code == 200 {
            (0, AuthActionView::Accept)
        } else if code == 401 {
            (2, AuthActionView::Refresh(refresh.unwrap()@))
        } else {
            (0, AuthActionView::Fail(AuthFlowError::UnexpectedStatus(code)))
        },
        (AuthFlow::Refreshing, AuthEvent::Refreshed(a)) => (1, AuthActionView::Send(a.unwrap()@)),
        (_, _) => (0, AuthActionView::Accept),
    }
}

/// What to do, as plain values.
pub ghost enum AuthActionView {
    Send(Seq<char>),
    Refresh(Seq<char>),
    Accept,
    Fail(AuthFlowError),
}

/// An action by its view.
pub open spec fn action_view(a: AuthAction) -> AuthActionView {
    match a {
        AuthAction::Send(t) => AuthActionView::Send(t@),
        AuthAction::Refresh(t) => AuthActionView::Refresh(t@),
        AuthAction::Accept => AuthActionView::Accept,
        AuthAction::Fail(e) => AuthActionView::Fail(e),
    }
}

/// Takes what just happened and returns the next state and what to do.
pub fn auth_step(state: AuthFlow, event: AuthEvent) -> (res: (AuthFlow, AuthAction))
    requires
        accepts(state, event),
    ensures
        rank(res.0) == step_spec(state, event).0,
        action_view(res.1) == step_spec(state, event).1,
        match (state, event) {
            (AuthFlow::Start, AuthEvent::Stored { access: Some(_), refresh }) => (res.0 matches AuthFlow::FirstTry {
                refresh: r,
            } && token_view(r) == token_view(refresh)),
            _ => true,
        },
{
    match state {
        AuthFlow::Start => match event {
            AuthEvent::Stored { access, refresh } => match access {
                Some(a) => (AuthFlow::FirstTry { refresh }, AuthAction::Send(a)),
                None => match refresh {
                    Some(r) => (AuthFlow::Refreshing, AuthAction::Refresh(r)),
                    None => (AuthFlow::Done, AuthAction::Fail(AuthFlowError::NoToken)),
                },
            },
            _ => (AuthFlow::Done, AuthAction::Accept),
        },
        AuthFlow::FirstTry { refresh } => match event {
            AuthEvent::Answered(code) => {
                if code == 200 {
                    (AuthFlow::Done, AuthAction::Accept)
                } else if code == 401 {
                    match refresh {
                        Some(r) => (AuthFlow::Refreshing, AuthAction::Refresh(r)),
                        None => (AuthFlow::Done, AuthAction::Accept),
                    }
                } else {
                    (AuthFlow::Done, AuthAction::Fail(AuthFlowError::UnexpectedStatus(code)))
                }
            },
            _ => (AuthFlow::Done, AuthAction::Accept),
        },
        AuthFlow::Refreshing => match event {
            AuthEvent::Refreshed(a) => match a {
                Some(t) => (AuthFlow::Retrying, AuthAction::Send(t)),
                None => (AuthFlow::Done, AuthAction::Accept),
            },
            _ => (AuthFlow::Done, AuthAction::Accept),
        },
        AuthFlow::Retrying => (AuthFlow::Done, AuthAction::Accept),
        AuthFlow::Done => (AuthFlow::Done, AuthAction::Accept),
    }
}

/// Every step brings the flow closer to its end, so a request with a token
/// takes at most four steps.
pub proof fn law_flow_ends(state: AuthFlow, event: AuthEvent)
    requires
        accepts(state, event),
    ensures
        step_spec(state, event).0 < rank(state),
{
}

/// The access token is renewed at most once: a renewal is asked for only
/// from the start or after the first try, and leads to a state from which no
/// renewal is asked for again.
pub proof fn law_refresh_at_most_once(state: AuthFlow, event: AuthEvent)
    requires
        accepts(state, event),
    ensures
        step_spec(state, event).1 is Refresh ==> rank(state) >= 3 && step_spec(state, event).0
            == 2,
        rank(state) <= 2 ==> !(step_spec(state, event).1 is Refresh),
{
}

/// The flow gives up for want of a token exactly when neither token is
/// stored.
pub proof fn law_no_token_fails(access: Option<String>, refresh: Option<String>)
    ensures
        step_spec(AuthFlow::Start, AuthEvent::Stored { access, refresh }).1 == AuthActionView::Fail(
            AuthFlowError::NoToken,
        ) <==> (access is None && refresh is None),
{
}

} // verus!

//! The fetcher's decisions. A fetch is one HTTP GET whose whole body is read
//! into memory; the network calls themselves belong to the caller, which tells
//! this module what happened and is told what to do next.

use vstd::prelude::*;

verus! {

/// What is to be fetched: the address of a picture, taken as it stands and
/// handed to the HTTP client unexamined.
#[derive(Debug, PartialEq, Eq)]
pub struct FetchRequest {
    pub url: String,
}

/// A picture in its encoded form, as it was fetched or as it was encoded.
pub type ImageBuffer = Vec<u8>;

/// Why a fetch delivered no bytes.
#[derive(Clone, Copy, Debug, PartialEq, Eq, Structural)]
pub enum FetchError {
    /// The request or the reading of the body failed underway.
    Transport,
    /// The server answered, but not with a success status.
    NonSuccessStatus,
}

/// Where a fetch stands.
#[derive(Debug, PartialEq, Eq)]
pub enum FetchState {
    /// The request is out; the response's status line is awaited.
    AwaitingResponse,
    /// The status was a success; the body is being read.
    AwaitingBody,
    /// The fetch is over, with the body or with the reason for having none.
    Done(Result<ImageBuffer, FetchError>),
}

/// What the caller reports.
#[derive(Debug, PartialEq, Eq)]
pub enum FetchEvent {
    /// The server answered with this status code.
    Responded(u16),
    /// The whole body has been read.
    BodyRead(ImageBuffer),
    /// The connection, the request or the reading failed.
    TransportFailed,
}

/// What the caller is to do next.
#[derive(Clone, Copy, Debug, PartialEq, Eq, Structural)]
pub enum FetchAction {
    /// Send the GET request, once, and report the response's status.
    SendGet,
    /// Read the whole body of the response.
    ReadBody,
    /// Nothing more: the state holds the outcome.
    Stop,
}

/// The model of a state: bodies as sequences of bytes.
pub enum FetchStateView {
    AwaitingResponse,
    AwaitingBody,
    Done(Result<Seq<u8>, FetchError>),
}

/// The model of an event.
pub enum FetchEventView {
    Responded(u16),
    BodyRead(Seq<u8>),
    TransportFailed,
}

impl View for FetchState {
    type V = FetchStateView;

    open spec fn view(&self) -> FetchStateView {
        match *self {
            FetchState::AwaitingResponse => FetchStateView::AwaitingResponse,
            FetchState::AwaitingBody => FetchStateView::AwaitingBody,
            FetchState::Done(Ok(body)) => FetchStateView::Done(Ok(body@)),
            FetchState::Done(Err(e)) => FetchStateView::Done(Err(e)),
        }
    }
}

impl View for FetchEvent {
    type V = FetchEventView;

    open spec fn view(&self) -> FetchEventView {
        match *self {
            FetchEvent::Responded(status) => FetchEventView::Responded(status),
            FetchEvent::BodyRead(body) => FetchEventView::BodyRead(body@),
            FetchEvent::TransportFailed => FetchEventView::TransportFailed,
        }
    }
}

/// Whether an HTTP status code lies in the success class, 200 to 299.
pub open spec fn status_is_success(status: u16) -> bool {
    200 <= status < 300
}

/// The state after `event` in `state`. A success status leads on to the body,
/// any other status ends the fetch with `NonSuccessStatus`; the body ends it
/// with the bytes; a transport failure, or an event out of turn, ends it with
/// `Transport`. Once over, a fetch stays as it is.
pub open spec fn next_state(state: FetchStateView, event: FetchEventView) -> FetchStateView {
    match (state, event) {
        (FetchStateView::Done(outcome), _) => FetchStateView::Done(outcome),
        (FetchStateView::AwaitingResponse, FetchEventView::Responded(status)) => {
            if status_is_success(status) {
                FetchStateView::AwaitingBody
            } else {
                FetchStateView::Done(Err(FetchError::NonSuccessStatus))
            }
        },
        (FetchStateView::AwaitingBody, FetchEventView::BodyRead(body)) => FetchStateView::Done(
            Ok(body),
        ),
        _ => FetchStateView::Done(Err(FetchError::Transport)),
    }
}

/// What the caller does in a state: send the request while the response is
/// awaited, read the body while that is awaited, and nothing once the fetch is
/// over.
pub open spec fn action_in(state: FetchStateView) -> FetchAction {
    match state {
        FetchStateView::AwaitingResponse => FetchAction::SendGet,
        FetchStateView::AwaitingBody => FetchAction::ReadBody,
        FetchStateView::Done(_) => FetchAction::Stop,
    }
}

/// Tells whether `status` is a success status code, 200 to 299.
pub fn is_success_status(status: u16) -> (ok: bool)
    ensures
        ok == status_is_success(status),
{
    200 <= status && status < 300
}

/// Starts a fetch: the response is awaited, and the request is to be sent.
pub fn start() -> (out: (FetchState, FetchAction))
    ensures
        out.0@ == FetchStateView::AwaitingResponse,
        out.1 == action_in(out.0@),
{
    (FetchState::AwaitingResponse, FetchAction::SendGet)
}

/// Takes a fetch one step on: the state after `event`, and what to do in it.
pub fn step(state: FetchState, event: FetchEvent) -> (out: (FetchState, FetchAction))
    ensures
        out.0@ == next_state(state@, event@),
        out.1 == action_in(out.0@),
{
    match state {
        FetchState::Done(outcome) => (FetchState::Done(outcome), FetchAction::Stop),
        FetchState::AwaitingResponse => match event {
            FetchEvent::Responded(status) => {
                if is_success_status(status) {
                    (FetchState::AwaitingBody, FetchAction::ReadBody)
                } else {
                    (FetchState::Done(Err(FetchError::NonSuccessStatus)), FetchAction::Stop)
                }
            },
            _ => (FetchState::Done(Err(FetchError::Transport)), FetchAction::Stop),
        },
        FetchState::AwaitingBody => match event {
            FetchEvent::BodyRead(body) => (FetchState::Done(Ok(body)), FetchAction::Stop),
            _ => (FetchState::Done(Err(FetchError::Transport)), FetchAction::Stop),
        },
    }
}

/// The outcome of a fetch that is over; nothing while it is underway.
pub fn outcome(state: FetchState) -> (out: Option<Result<ImageBuffer, FetchError>>)
    ensures
        match (state@, out) {
            (FetchStateView::Done(Ok(body)), Some(Ok(bytes))) => bytes@ == body,
            (FetchStateView::Done(Err(e)), Some(Err(same))) => same == e,
            (FetchStateView::AwaitingResponse, None) => true,
            (FetchStateView::AwaitingBody, None) => true,
            _ => false,
        },
{
    match state {
        FetchState::Done(outcome) => Some(outcome),
        _ => None,
    }
}

/// Whether `event` is a response with a success status.
pub open spec fn is_success_response(event: FetchEventView) -> bool {
    match event {
        FetchEventView::Responded(status) => status_is_success(status),
        _ => false,
    }
}

/// The body is read only after a success status: a step asks for it exactly
/// when the response was awaited and a status from 200 to 299 came.
pub proof fn lemma_body_read_only_on_success(state: FetchStateView, event: FetchEventView)
    ensures
        action_in(next_state(state, event)) == FetchAction::ReadBody <==> (state
            == FetchStateView::AwaitingResponse && is_success_response(event)),
{
}

/// A response without a success status ends the fetch with `NonSuccessStatus`,
/// and nothing of its body is read.
pub proof fn lemma_failure_status_ends_fetch(status: u16)
    requires
        !status_is_success(status),
    ensures
        next_state(FetchStateView::AwaitingResponse, FetchEventView::Responded(status))
            == FetchStateView::Done(Err(FetchError::NonSuccessStatus)),
        action_in(next_state(FetchStateView::AwaitingResponse, FetchEventView::Responded(status)))
            == FetchAction::Stop,
{
}

/// A fetch sends its request once: no step asks for it again.
pub proof fn lemma_request_sent_once(state: FetchStateView, event: FetchEventView)
    ensures
        action_in(next_state(state, event)) != FetchAction::SendGet,
{
}

/// A fetch is over after two events at the most.
pub proof fn lemma_over_after_two_events(first: FetchEventView, second: FetchEventView)
    ensures
        next_state(next_state(FetchStateView::AwaitingResponse, first), second)
            is Done,
{
}

/// A fetch that is over stays over, with the same outcome, whatever comes.
pub proof fn lemma_done_is_final(outcome: Result<Seq<u8>, FetchError>, event: FetchEventView)
    ensures
        next_state(FetchStateView::Done(outcome), event) == FetchStateView::Done(outcome),
{
}

} // verus!

//! The push trigger's conversation with the notification service: what is
//! sent, what may come back, and what each answer leads to.

use crate::text::{append_decimal, decimal};
use crate::zotero_api::api_key::ApiKey;
use crate::zotero_api::client::UserId;
use tokio_tungstenite::tungstenite;
use vstd::prelude::*;
use vstd::string::*;

verus! {

/// `tungstenite::Error`: a failure of the connection. It is carried along
/// and never looked into.
#[verifier::external_type_specification]
#[verifier::external_body]
pub struct ExConnectionError(tungstenite::Error);

/// `serde_json::Error`: a failure to decode a message. It is carried along
/// and never looked into.
#[verifier::external_type_specification]
#[verifier::external_body]
pub struct ExJsonError(serde_json::Error);

/// One credential and the topics it subscribes to.
#[derive(Debug)]
pub struct Subscription {
    pub api_key: String,
    pub topics: Vec<String>,
}

/// Why a topic could not be subscribed to.
#[derive(Debug)]
pub struct SubscriptionError {
    pub api_key: String,
    pub topic: String,
    pub error: String,
}

/// What this library sends to the notification service.
#[derive(Debug)]
pub enum Request {
    CreateSubscriptions { subscriptions: Vec<Subscription> },
}

/// What the notification service sends.
#[derive(Debug)]
pub enum Response {
    /// The connection stands.
    Connected { retry: u64 },
    /// The answer to a subscription request.
    SubscriptionsCreated { subscriptions: Vec<Subscription>, errors: Vec<SubscriptionError> },
    /// A topic has changed.
    TopicUpdated { topic: String, version: u64 },
}

/// How the push trigger fails.
#[derive(Debug)]
pub enum WebsocketError {
    /// The connection failed or was closed.
    ConnectionError(tungstenite::Error),
    /// A message could not be decoded.
    JsonError(serde_json::Error),
    /// A message was decoded, but is not what had to come at that point.
    UnexpectedResponse(Response),
}

/// Whether `error` is the one that stands for a connection that has ended
/// (`tungstenite::Error::ConnectionClosed`).
pub uninterp spec fn is_connection_closed(error: tungstenite::Error) -> bool;

/// `tungstenite::Error::ConnectionClosed`: builds the error that stands for
/// a connection that has ended.
#[verifier::external_body]
fn connection_closed() -> (error: tungstenite::Error)
    ensures
        is_connection_closed(error),
{
    tungstenite::Error::ConnectionClosed
}

/// The topic under which the changes of a user's library are announced.
pub open spec fn user_topic(user_id: UserId) -> Seq<char> {
    "/users/"@ + decimal(user_id as nat)
}

/// The request that subscribes `api_key` to the changes of the library of
/// user `user_id`: one subscription, with that one topic.
pub fn subscription_request(api_key: &ApiKey, user_id: UserId) -> (request: Request)
    ensures
        request matches Request::CreateSubscriptions { subscriptions } && {
            &&& subscriptions@.len() == 1
            &&& subscriptions@[0].api_key@ == api_key.0@
            &&& subscriptions@[0].topics@.len() == 1
            &&& subscriptions@[0].topics@[0]@ == user_topic(user_id)
        },
{
    let topic = append_decimal(String::from_str("/users/"), user_id);
    let mut topics: Vec<String> = Vec::new();
    topics.push(topic);
    let mut subscriptions: Vec<Subscription> = Vec::new();
    subscriptions.push(Subscription { api_key: api_key.0.clone(), topics });
    Request::CreateSubscriptions { subscriptions }
}

/// After connecting, the first message has to say that the connection
/// stands. Any other message is an error that carries it.
pub fn expect_connected(response: Response) -> (outcome: Result<(), WebsocketError>)
    ensures
        response is Connected ==> outcome is Ok,
        !(response is Connected) ==> outcome == Err::<(), WebsocketError>(
            WebsocketError::UnexpectedResponse(response),
        ),
{
    match response {
        Response::Connected { .. } => Ok(()),
        other => Err(WebsocketError::UnexpectedResponse(other)),
    }
}

/// Whether `response` confirms a subscription without any error.
pub open spec fn is_subscribed(response: Response) -> bool {
    response matches Response::SubscriptionsCreated { errors, .. } && errors@.len() == 0
}

/// After subscribing, the answer has to confirm the subscription and list no
/// error. Any other message is an error that carries it.
pub fn expect_subscribed(response: Response) -> (outcome: Result<(), WebsocketError>)
    ensures
        is_subscribed(response) ==> outcome is Ok,
        !is_subscribed(response) ==> outcome == Err::<(), WebsocketError>(
            WebsocketError::UnexpectedResponse(response),
        ),
{
    let confirmed = match &response {
        Response::SubscriptionsCreated { errors, .. } => errors.len() == 0,
        _ => false,
    };
    if confirmed {
        Ok(())
    } else {
        Err(WebsocketError::UnexpectedResponse(response))
    }
}

/// One frame as it comes off the connection.
#[derive(Debug)]
pub enum Frame {
    /// A text frame and its text.
    Text(String),
    /// Any other frame.
    Other,
}

/// What to do with what came off the connection.
#[derive(Debug)]
pub enum ReadStep {
    /// Decode this text as a message.
    Decode(String),
    /// Ignore the frame and read on.
    Skip,
    /// Give up with this error.
    Fail(WebsocketError),
}

/// Decides what to do with what came off the connection: the text of a text
/// frame is to be decoded, any other frame is ignored, a failure of the
/// connection ends the reading, and so does the end of the stream, which
/// counts as a closed connection.
pub fn on_frame(frame: Option<Result<Frame, tungstenite::Error>>) -> (step: ReadStep)
    ensures
        match frame {
            Some(Ok(Frame::Text(text))) => step == ReadStep::Decode(text),
            Some(Ok(Frame::Other)) => step == ReadStep::Skip,
            Some(Err(error)) => step == ReadStep::Fail(WebsocketError::ConnectionError(error)),
            None => step matches ReadStep::Fail(WebsocketError::ConnectionError(error))
                && is_connection_closed(error),
        },
{
    match frame {
        Some(Ok(Frame::Text(text))) => ReadStep::Decode(text),
        Some(Ok(Frame::Other)) => ReadStep::Skip,
        Some(Err(error)) => ReadStep::Fail(WebsocketError::ConnectionError(error)),
        None => ReadStep::Fail(WebsocketError::ConnectionError(connection_closed())),
    }
}

/// Turns the outcome of decoding a message into the outcome of reading one.
pub fn on_decoded(decoded: Result<Response, serde_json::Error>) -> (outcome: Result<
    Response,
    WebsocketError,
>)
    ensures
        match decoded {
            Ok(response) => outcome == Ok::<Response, WebsocketError>(response),
            Err(error) => outcome == Err::<Response, WebsocketError>(
                WebsocketError::JsonError(error),
            ),
        },
{
    match decoded {
        Ok(response) => Ok(response),
        Err(error) => Err(WebsocketError::JsonError(error)),
    }
}

/// What happens while the trigger listens.
#[derive(Debug)]
pub enum ListenEvent {
    /// Cancellation was requested.
    Cancelled,
    /// A message was read, or reading failed.
    Read(Result<Response, WebsocketError>),
}

/// What the listening trigger does next.
#[derive(Debug)]
pub enum ListenAction {
    /// Offer a signal to the exporter and listen on.
    Signal,
    /// Stop listening, with this outcome.
    Stop(Result<(), WebsocketError>),
}

/// Decides what the listening trigger does: cancellation stops it cleanly; a
/// notice of change becomes a signal; any other message and any failure stop
/// it with an error.
pub fn on_listen_event(event: ListenEvent) -> (action: ListenAction)
    ensures
        match event {
            ListenEvent::Cancelled => action == ListenAction::Stop(Ok(())),
            ListenEvent::Read(Ok(response)) => if response is TopicUpdated {
                action == ListenAction::Signal
            } else {
                action == ListenAction::Stop(Err(WebsocketError::UnexpectedResponse(response)))
            },
            ListenEvent::Read(Err(error)) => action == ListenAction::Stop(Err(error)),
        },
{
    match event {
        ListenEvent::Cancelled => ListenAction::Stop(Ok(())),
        ListenEvent::Read(Ok(Response::TopicUpdated { .. })) => ListenAction::Signal,
        ListenEvent::Read(Ok(other)) => ListenAction::Stop(
            Err(WebsocketError::UnexpectedResponse(other)),
        ),
        ListenEvent::Read(Err(error)) => ListenAction::Stop(Err(error)),
    }
}

} // verus!

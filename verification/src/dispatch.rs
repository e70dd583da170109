//! The handler that user code supplies for inbound requests and
//! notifications.

use crate::datum::Datum;
use crate::message::{Message, Response};
use vstd::prelude::*;

verus! {

/// A target of RPC requests.
///
/// An endpoint hands each inbound request and notification to an implementor
/// of this trait. It may be called from several tasks at once, each with a
/// clone of its own.
pub trait Dispatch {
    /// Responds to a remote procedure call: `Ok` with the value to return,
    /// `Err` with the error to report.
    fn dispatch(&mut self, method: &str, args: Vec<Datum>) -> Result<Datum, Datum>;

    /// Reacts to a remote notification, which gets no response. Unless an
    /// implementor says otherwise, a notification is ignored.
    fn notify(&mut self, method: &str, args: Vec<Datum>) {
    }
}

/// The dispatcher of a client that serves no calls: every inbound request is
/// answered with an error, and notifications are ignored.
#[derive(Clone, Copy, Debug)]
pub struct ClientDispatch;

/// The error with which `ClientDispatch` answers a request.
pub open spec fn rejection() -> Seq<char> {
    "Client received request."@
}

impl Dispatch for ClientDispatch {
    fn dispatch(&mut self, method: &str, args: Vec<Datum>) -> (r: Result<Datum, Datum>)
        ensures
            r matches Err(Datum::String(text)) && text@ == rejection(),
    {
        Err(Datum::String("Client received request.".to_string()))
    }
}

/// The response to the request `id` whose handler returned `result`.
pub fn respond(id: i32, result: Result<Datum, Datum>) -> (m: Message)
    ensures
        m == Message::Response(Response { id, result }),
{
    Message::Response(Response { id, result })
}

/// Serves one inbound message with `dispatcher`.
///
/// A request is handed to `dispatch`, with its own method and parameters,
/// and gives the response to send back: what `dispatch` returned, under the
/// request's ID. A notification is handed to `notify`, with its own method
/// and parameters, and gives nothing. A response is not for a dispatcher: it
/// gives nothing and leaves the dispatcher as it is.
pub fn serve<D: Dispatch>(dispatcher: &mut D, message: Message) -> (reply: Option<Message>)
    ensures
        message is Request ==> reply is Some && reply->0 is Response
            && reply->0->Response_0.id == message->Request_0.id && exists|d: &mut D, name: &str|
            *d == *old(dispatcher) && *final(d) == *final(dispatcher) && name@
                == message->Request_0.method@ && call_ensures(
                D::dispatch,
                (d, name, message->Request_0.params),
                reply->0->Response_0.result,
            ),
        message is Notification ==> reply is None && exists|d: &mut D, name: &str|
            *d == *old(dispatcher) && *final(d) == *final(dispatcher) && name@
                == message->Notification_0.method@ && call_ensures(
                D::notify,
                (d, name, message->Notification_0.params),
                (),
            ),
        message is Response ==> reply is None && *final(dispatcher) == *old(dispatcher),
{
    match message {
        Message::Request(request) => {
            let result = dispatcher.dispatch(request.method.as_str(), request.params);
            Some(respond(request.id, result))
        },
        Message::Notification(notification) => {
            dispatcher.notify(notification.method.as_str(), notification.params);
            None
        },
        Message::Response(_) => None,
    }
}

} // verus!

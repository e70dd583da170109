//! The calling side of a connection.

use crate::datum::Datum;
use crate::dispatch::{ClientDispatch, Dispatch};
use crate::endpoint::{began_call, routed, Action, Endpoint};
use crate::error::RpcError;
use crate::message::Message;
use std::collections::HashMap;
use vstd::prelude::*;

verus! {

/// The entry point for making a client.
///
/// A client originates calls over a connection, and may serve calls that the
/// peer makes over the same connection.
pub struct Client;

/// The state of a client's connection: the dispatcher for inbound calls and
/// the endpoint that numbers outbound calls and routes what comes in. `S` is
/// the completion slot on which the caller of a request waits.
pub struct ClientHandle<D: Dispatch, S> {
    pub dispatcher: D,
    pub endpoint: Endpoint<S>,
}

impl Client {
    /// A client that serves no calls: inbound requests are answered with an
    /// error, as `ClientDispatch` does.
    pub fn new<S>() -> (handle: ClientHandle<ClientDispatch, S>)
        ensures
            handle.endpoint.outstanding() == Map::<i32, S>::empty(),
            handle.endpoint.upcoming() == 0,
            !handle.endpoint.is_closed(),
    {
        ClientHandle { dispatcher: ClientDispatch, endpoint: Endpoint::new() }
    }

    /// A client that serves inbound requests and notifications with
    /// `dispatcher`.
    pub fn with_dispatcher<D: Dispatch, S>(dispatcher: D) -> (handle: ClientHandle<D, S>)
        ensures
            handle.dispatcher == dispatcher,
            handle.endpoint.outstanding() == Map::<i32, S>::empty(),
            handle.endpoint.upcoming() == 0,
            !handle.endpoint.is_closed(),
    {
        ClientHandle { dispatcher, endpoint: Endpoint::new() }
    }
}

impl<D: Dispatch, S> ClientHandle<D, S> {
    /// Starts a call without waiting for its outcome: registers `slot` under
    /// a fresh ID and returns the request to hand to the writer. The outcome
    /// arrives through `receive`, which gives the slot back with it.
    pub fn async_call(&mut self, method: &str, params: Vec<Datum>, slot: S) -> (r: Result<
        Message,
        RpcError,
    >)
        ensures
            began_call(old(self).endpoint, final(self).endpoint, method@, params, slot, r),
            final(self).dispatcher == old(self).dispatcher,
    {
        self.endpoint.begin_call(method, params, slot)
    }

    /// Routes one inbound message, as the endpoint does.
    pub fn receive(&mut self, message: Message) -> (action: Action<S>)
        ensures
            (final(self).endpoint.outstanding(), action) == routed(
                old(self).endpoint.outstanding(),
                message,
            ),
            final(self).endpoint.is_closed() == old(self).endpoint.is_closed(),
            final(self).endpoint.upcoming() == old(self).endpoint.upcoming(),
            final(self).dispatcher == old(self).dispatcher,
    {
        self.endpoint.on_message(message)
    }

    /// Tears the connection down and hands back every outstanding request
    /// with its slot.
    pub fn close(&mut self) -> (released: HashMap<i32, S>)
        ensures
            released@ == old(self).endpoint.outstanding(),
            final(self).endpoint.outstanding() == Map::<i32, S>::empty(),
            final(self).endpoint.is_closed(),
            final(self).dispatcher == old(self).dispatcher,
    {
        self.endpoint.teardown()
    }
}

} // verus!

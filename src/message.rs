//! The connection lifecycle and the routing of inbound frames.

use vstd::prelude::*;

use crate::data::{is_error_payload, AppMessage, Event, Request, Response, Stream};
use crate::rpc::{unknown_method_message, CommandRegistry, PendingCalls};
use crate::table::lists_exactly;

verus! {

/// Where a connection stands.
#[derive(PartialEq, Eq, Structural, Clone, Copy, Debug)]
pub enum ConnState {
    Idle,
    Connected,
    Disposing,
}

/// The failures that calls and sends report to their callers.
#[derive(PartialEq, Eq, Structural, Clone, Copy, Debug)]
pub enum ConnError {
    /// A send or call was attempted without a connected transport.
    NotConnected,
    /// A pending call was dropped because its connection was torn down.
    Disconnected,
    /// A pending call passed its deadline.
    Timeout,
    /// A call was started under an id that already has a pending call.
    IdInUse,
}

/// The longest a call waits when its caller names no deadline, in
/// milliseconds.
pub const DEFAULT_CALL_TIMEOUT_MS: u64 = 30000;

/// The deadline of a call: the one its caller asked for, else the default.
pub fn call_timeout_ms(requested: Option<u64>) -> (r: u64)
    ensures
        r == match requested {
            Some(t) => t,
            None => DEFAULT_CALL_TIMEOUT_MS,
        },
{
    match requested {
        Some(t) => t,
        None => DEFAULT_CALL_TIMEOUT_MS,
    }
}

/// What the read loop must do with one decoded inbound frame.
pub enum Inbound<W> {
    /// A request for a registered method: run its handler, then send the
    /// answer that `finish_call` builds.
    Call(Request),
    /// Send this answer back as it stands (a request for an unknown method).
    Answer(Response),
    /// Hand the response to the waiter of its call.
    Deliver(W, Response),
    /// A response that no pending call awaits (unknown, or already timed
    /// out): dropped without an error.
    Stale(Response),
    /// Run the event handler.
    Event(Event),
    /// Run the stream handler.
    Stream(Stream),
    /// A frame of a kind with no handler installed: nothing to do.
    Ignored,
}

/// One connection generation: its state, its pending outbound calls, its
/// commands and its per-kind handlers. `W` is what wakes a waiting caller,
/// `H` a command handler, `E` the event handler and `S` the stream handler.
pub struct MessageManager<W, H, E, S> {
    state: ConnState,
    pending: PendingCalls<W>,
    commands: CommandRegistry<H>,
    event_handler: Option<E>,
    stream_handler: Option<S>,
}

impl<W, H, E, S> MessageManager<W, H, E, S> {
    pub closed spec fn wf(&self) -> bool {
        self.pending.wf() && self.commands.wf()
    }

    pub closed spec fn conn_state(&self) -> ConnState {
        self.state
    }

    /// The pending calls, by request id.
    pub closed spec fn pending_calls(&self) -> Map<Seq<char>, W> {
        self.pending@
    }

    /// The command handlers, by method name.
    pub closed spec fn command_map(&self) -> Map<Seq<char>, H> {
        self.commands@
    }

    pub closed spec fn spec_event_handler(&self) -> Option<E> {
        self.event_handler
    }

    pub closed spec fn spec_stream_handler(&self) -> Option<S> {
        self.stream_handler
    }

    /// An idle manager with nothing registered.
    pub fn new() -> (r: Self)
        ensures
            r.wf(),
            r.conn_state() == ConnState::Idle,
            r.pending_calls() == Map::<Seq<char>, W>::empty(),
            r.command_map() == Map::<Seq<char>, H>::empty(),
            r.spec_event_handler().is_none(),
            r.spec_stream_handler().is_none(),
    {
        MessageManager {
            state: ConnState::Idle,
            pending: PendingCalls::new(),
            commands: CommandRegistry::new(),
            event_handler: None,
            stream_handler: None,
        }
    }

    /// The current state.
    pub fn state(&self) -> (r: ConnState)
        ensures
            r == self.conn_state(),
    {
        self.state
    }

    /// Takes a freshly opened transport into use. Only an idle manager may
    /// do so: a connected one must be disposed first.
    pub fn init(&mut self)
        requires
            old(self).wf(),
            old(self).conn_state() == ConnState::Idle,
        ensures
            final(self).wf(),
            final(self).conn_state() == ConnState::Connected,
            final(self).pending_calls() == old(self).pending_calls(),
            final(self).command_map() == old(self).command_map(),
            final(self).spec_event_handler() == old(self).spec_event_handler(),
            final(self).spec_stream_handler() == old(self).spec_stream_handler(),
    {
        self.state = ConnState::Connected;
    }

    /// Registers or replaces the handler of method `name`.
    pub fn add_command(&mut self, name: &str, handler: H)
        requires
            old(self).wf(),
        ensures
            final(self).wf(),
            final(self).command_map() == old(self).command_map().insert(name@, handler),
            final(self).conn_state() == old(self).conn_state(),
            final(self).pending_calls() == old(self).pending_calls(),
            final(self).spec_event_handler() == old(self).spec_event_handler(),
            final(self).spec_stream_handler() == old(self).spec_stream_handler(),
    {
        self.commands.add_command(name, handler);
    }

    /// The handler of method `name`.
    pub fn command(&self, name: &str) -> (r: Option<&H>)
        requires
            self.wf(),
        ensures
            r.is_some() == self.command_map().contains_key(name@),
            r.is_some() ==> *r.unwrap() == self.command_map()[name@],
    {
        self.commands.get(name)
    }

    /// Installs the event handler, replacing any earlier one.
    pub fn set_event_handler(&mut self, handler: E)
        ensures
            final(self).spec_event_handler() == Some(handler),
            final(self).wf() == old(self).wf(),
            final(self).conn_state() == old(self).conn_state(),
            final(self).pending_calls() == old(self).pending_calls(),
            final(self).command_map() == old(self).command_map(),
            final(self).spec_stream_handler() == old(self).spec_stream_handler(),
    {
        self.event_handler = Some(handler);
    }

    /// Installs the stream handler, replacing any earlier one.
    pub fn set_stream_handler(&mut self, handler: S)
        ensures
            final(self).spec_stream_handler() == Some(handler),
            final(self).wf() == old(self).wf(),
            final(self).conn_state() == old(self).conn_state(),
            final(self).pending_calls() == old(self).pending_calls(),
            final(self).command_map() == old(self).command_map(),
            final(self).spec_event_handler() == old(self).spec_event_handler(),
    {
        self.stream_handler = Some(handler);
    }

    /// The installed event handler.
    pub fn event_handler(&self) -> (r: Option<&E>)
        ensures
            r.is_some() == self.spec_event_handler().is_some(),
            r.is_some() ==> *r.unwrap() == self.spec_event_handler().unwrap(),
    {
        match &self.event_handler {
            Some(e) => Some(e),
            None => None,
        }
    }

    /// The installed stream handler.
    pub fn stream_handler(&self) -> (r: Option<&S>)
        ensures
            r.is_some() == self.spec_stream_handler().is_some(),
            r.is_some() ==> *r.unwrap() == self.spec_stream_handler().unwrap(),
    {
        match &self.stream_handler {
            Some(s) => Some(s),
            None => None,
        }
    }

    /// Whether a frame may be sent now: only on a connected transport.
    pub fn check_send(&self) -> (r: Result<(), ConnError>)
        ensures
            r is Ok == (self.conn_state() == ConnState::Connected),
            r matches Err(e) ==> e == ConnError::NotConnected,
    {
        if self.state == ConnState::Connected {
            Ok(())
        } else {
            Err(ConnError::NotConnected)
        }
    }

    /// Records an outbound call before its request is sent. Fails, handing
    /// the waiter back, when not connected or when the id is already pending.
    pub fn begin_call(&mut self, request: &Request, waiter: W) -> (r: Result<(), (ConnError, W)>)
        requires
            old(self).wf(),
        ensures
            final(self).wf(),
            final(self).conn_state() == old(self).conn_state(),
            final(self).command_map() == old(self).command_map(),
            final(self).spec_event_handler() == old(self).spec_event_handler(),
            final(self).spec_stream_handler() == old(self).spec_stream_handler(),
            old(self).conn_state() != ConnState::Connected ==> r == Err::<(), (ConnError, W)>(
                (ConnError::NotConnected, waiter),
            ) && final(self).pending_calls() == old(self).pending_calls(),
            old(self).conn_state() == ConnState::Connected && old(self).pending_calls().contains_key(
                request.id@,
            ) ==> r == Err::<(), (ConnError, W)>((ConnError::IdInUse, waiter))
                && final(self).pending_calls() == old(self).pending_calls(),
            old(self).conn_state() == ConnState::Connected && !old(
                self,
            ).pending_calls().contains_key(request.id@) ==> r is Ok && final(self).pending_calls()
                == old(self).pending_calls().insert(request.id@, waiter),
    {
        if self.state != ConnState::Connected {
            return Err((ConnError::NotConnected, waiter));
        }
        match self.pending.register(request.id.clone(), waiter) {
            Ok(()) => Ok(()),
            Err(w) => Err((ConnError::IdInUse, w)),
        }
    }

    /// Removes the call `id` whose deadline passed; its caller gets
    /// `ConnError::Timeout`, and a response that comes later is stale.
    pub fn expire(&mut self, id: &str) -> (r: Option<W>)
        requires
            old(self).wf(),
        ensures
            final(self).wf(),
            final(self).pending_calls() == old(self).pending_calls().remove(id@),
            r.is_some() == old(self).pending_calls().contains_key(id@),
            r matches Some(w) ==> w == old(self).pending_calls()[id@],
            final(self).conn_state() == old(self).conn_state(),
            final(self).command_map() == old(self).command_map(),
            final(self).spec_event_handler() == old(self).spec_event_handler(),
            final(self).spec_stream_handler() == old(self).spec_stream_handler(),
    {
        self.pending.expire(id)
    }

    /// Routes one inbound frame by its kind.
    pub fn on_frame(&mut self, msg: AppMessage) -> (r: Inbound<W>)
        requires
            old(self).wf(),
        ensures
            final(self).wf(),
            final(self).conn_state() == old(self).conn_state(),
            final(self).command_map() == old(self).command_map(),
            final(self).spec_event_handler() == old(self).spec_event_handler(),
            final(self).spec_stream_handler() == old(self).spec_stream_handler(),
            !(msg is Response) ==> final(self).pending_calls() == old(self).pending_calls(),
            msg matches AppMessage::Request(req) ==> if old(self).command_map().contains_key(
                req.method@,
            ) {
                r == Inbound::<W>::Call(req)
            } else {
                r matches Inbound::Answer(resp) && resp.id@ == req.id@ && is_error_payload(
                    resp.data,
                    unknown_method_message(req.method@),
                )
            },
            msg matches AppMessage::Response(resp) ==> final(self).pending_calls() == old(
                self,
            ).pending_calls().remove(resp.id@) && if old(self).pending_calls().contains_key(
                resp.id@,
            ) {
                r == Inbound::<W>::Deliver(old(self).pending_calls()[resp.id@], resp)
            } else {
                r == Inbound::<W>::Stale(resp)
            },
            msg matches AppMessage::Event(ev) ==> if old(self).spec_event_handler().is_some() {
                r == Inbound::<W>::Event(ev)
            } else {
                r is Ignored
            },
            msg matches AppMessage::Stream(st) ==> if old(self).spec_stream_handler().is_some() {
                r == Inbound::<W>::Stream(st)
            } else {
                r is Ignored
            },
    {
        match msg {
            AppMessage::Request(req) => {
                match self.commands.dispatch(&req) {
                    Ok(_) => Inbound::Call(req),
                    Err(resp) => Inbound::Answer(resp),
                }
            },
            AppMessage::Response(resp) => {
                match self.pending.fulfill(resp.id.as_str()) {
                    Some(w) => Inbound::Deliver(w, resp),
                    None => Inbound::Stale(resp),
                }
            },
            AppMessage::Event(ev) => {
                if self.event_handler.is_some() {
                    Inbound::Event(ev)
                } else {
                    Inbound::Ignored
                }
            },
            AppMessage::Stream(st) => {
                if self.stream_handler.is_some() {
                    Inbound::Stream(st)
                } else {
                    Inbound::Ignored
                }
            },
        }
    }

    /// Starts teardown: no more sends, every pending call is handed back
    /// exactly once to be failed with `ConnError::Disconnected`, and the
    /// commands and handlers of this generation are dropped.
    pub fn dispose(&mut self) -> (r: Vec<(String, W)>)
        requires
            old(self).wf(),
        ensures
            final(self).wf(),
            final(self).conn_state() == (if old(self).conn_state() == ConnState::Idle {
                ConnState::Idle
            } else {
                ConnState::Disposing
            }),
            lists_exactly(r@, old(self).pending_calls()),
            final(self).pending_calls() == Map::<Seq<char>, W>::empty(),
            final(self).command_map() == Map::<Seq<char>, H>::empty(),
            final(self).spec_event_handler().is_none(),
            final(self).spec_stream_handler().is_none(),
    {
        if self.state != ConnState::Idle {
            self.state = ConnState::Disposing;
        }
        self.commands.clear();
        self.event_handler = None;
        self.stream_handler = None;
        self.pending.fail_all()
    }

    /// Ends teardown once the transport is closed: the manager is idle and
    /// may take a new transport.
    pub fn finish_dispose(&mut self)
        ensures
            final(self).conn_state() == ConnState::Idle,
            final(self).wf() == old(self).wf(),
            final(self).pending_calls() == old(self).pending_calls(),
            final(self).command_map() == old(self).command_map(),
            final(self).spec_event_handler() == old(self).spec_event_handler(),
            final(self).spec_stream_handler() == old(self).spec_stream_handler(),
    {
        self.state = ConnState::Idle;
    }
}

} // verus!

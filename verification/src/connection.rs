//! The decisions inside the loops that run a websocket connection: what to
//! do with each thing that happens on it, and whether a stream is there to
//! run at all. Reading, writing, parsing and waiting stay with the caller.

use vstd::prelude::*;

use crate::meta::WsMessage;

verus! {

/// Which connection runs the loop.
#[derive(Debug, Clone, Copy, PartialEq, Eq, Structural)]
pub enum ConnectionKind {
    /// A querier's connection to the router.
    Router,
    /// The router's connection to a client.
    Client,
    /// The router's connection to a querier.
    Querier,
}

/// What happened on a connection.
#[derive(Debug)]
pub enum StreamEvent {
    /// A text frame arrived.
    Text(String),
    /// A close frame arrived.
    Close,
    /// Another frame arrived.
    OtherFrame,
    /// A message for the peer arrived on the connection's own channel.
    Outbound(WsMessage),
    /// Neither the socket nor the channel will yield anything more.
    Exhausted,
}

/// What the loop does next.
#[derive(Debug)]
pub enum StreamAction {
    /// Parse the text as a message, handle it and send the answer back.
    Respond(String),
    /// Parse the text as a message and hand it to the message bus.
    Route(String),
    /// Parse the text as a message; there is no bus to hand it to. A text
    /// that is not a message still ends the loop with the parse error.
    Parse(String),
    /// Serialize the message and send it to the peer.
    Send(WsMessage),
    /// Wait for the next event.
    Continue,
    /// Leave the loop.
    Stop,
}

/// Whether `event` can reach the loop of a connection of `kind` without the
/// loop failing: a querier's connection to the router has no channel of its
/// own, and only the client's loop has a way out once all its sources are
/// exhausted (the others have none, and fail there).
pub open spec fn event_is_handled(kind: ConnectionKind, event: StreamEvent) -> bool {
    match event {
        StreamEvent::Outbound(_) => kind != ConnectionKind::Router,
        StreamEvent::Exhausted => kind == ConnectionKind::Client,
        _ => true,
    }
}

/// The action for `event` on a connection of `kind`; `has_bus` says whether
/// the connection was given a message bus.
pub open spec fn action_for(kind: ConnectionKind, has_bus: bool, event: StreamEvent) -> StreamAction {
    match event {
        StreamEvent::Text(text) => if kind == ConnectionKind::Router {
            StreamAction::Respond(text)
        } else if has_bus {
            StreamAction::Route(text)
        } else {
            StreamAction::Parse(text)
        },
        StreamEvent::Close => StreamAction::Stop,
        StreamEvent::OtherFrame => StreamAction::Continue,
        StreamEvent::Outbound(message) => StreamAction::Send(message),
        StreamEvent::Exhausted => StreamAction::Stop,
    }
}

/// The next step of a connection's loop.
pub fn next_action(kind: ConnectionKind, has_bus: bool, event: StreamEvent) -> (r: StreamAction)
    requires
        event_is_handled(kind, event),
    ensures
        r == action_for(kind, has_bus, event),
        event matches StreamEvent::Outbound(m) ==> r == StreamAction::Send(m),
        event matches StreamEvent::Text(t) ==> (r == StreamAction::Respond(t) <==> kind
            == ConnectionKind::Router),
        event matches StreamEvent::Text(t) ==> (r == StreamAction::Route(t) <==> (kind
            != ConnectionKind::Router && has_bus)),
        event matches StreamEvent::Text(t) ==> (r == StreamAction::Parse(t) <==> (kind
            != ConnectionKind::Router && !has_bus)),
        r == StreamAction::Stop <==> (event is Close || event is Exhausted),
        r == StreamAction::Continue <==> event is OtherFrame,
{
    match event {
        StreamEvent::Text(text) => {
            if kind == ConnectionKind::Router {
                StreamAction::Respond(text)
            } else if has_bus {
                StreamAction::Route(text)
            } else {
                StreamAction::Parse(text)
            }
        },
        StreamEvent::Close => StreamAction::Stop,
        StreamEvent::OtherFrame => StreamAction::Continue,
        StreamEvent::Outbound(message) => StreamAction::Send(message),
        StreamEvent::Exhausted => StreamAction::Stop,
    }
}

/// On a connection with a channel of its own (to a client or to a
/// querier), every message that arrives on the channel is sent to the peer,
/// unchanged, with or without a bus.
pub proof fn outbound_messages_are_sent(kind: ConnectionKind, has_bus: bool, m: WsMessage)
    requires
        kind != ConnectionKind::Router,
    ensures
        action_for(kind, has_bus, StreamEvent::Outbound(m)) == StreamAction::Send(m),
{
}

/// A close frame ends every connection's loop, and every text frame is
/// parsed, with or without a message bus: none is skipped, so a text that
/// is not a message always reaches the parse step that fails the run.
/// Only a close frame or the end of every source stops the loop.
pub proof fn close_stops_and_text_is_parsed(kind: ConnectionKind, has_bus: bool, text: String, event: StreamEvent)
    ensures
        action_for(kind, has_bus, StreamEvent::Close) == StreamAction::Stop,
        action_for(kind, has_bus, StreamEvent::Text(text)) == (if kind == ConnectionKind::Router {
            StreamAction::Respond(text)
        } else if has_bus {
            StreamAction::Route(text)
        } else {
            StreamAction::Parse(text)
        }),
        action_for(kind, has_bus, event) == StreamAction::Stop ==> (event is Close || event is Exhausted),
{
}

/// Why a connection could not run.
#[derive(Debug, Clone, Copy, PartialEq, Eq, Structural)]
pub enum ConnectionError {
    /// The connection holds no websocket stream.
    NoStream,
}

impl ConnectionError {
    /// The text of the error.
    pub fn message(&self) -> (r: String)
        ensures
            r@ == "No WebSocket stream"@,
    {
        String::from_str("No WebSocket stream")
    }
}

/// The websocket stream that a connection holds while it is connected.
pub struct StreamSlot<S> {
    stream: Option<S>,
}

impl<S> View for StreamSlot<S> {
    type V = Option<S>;

    closed spec fn view(&self) -> Option<S> {
        self.stream
    }
}

impl<S> StreamSlot<S> {
    /// A slot with no stream.
    pub fn new() -> (r: Self)
        ensures
            r@ is None,
    {
        StreamSlot { stream: None }
    }

    /// Whether a stream is held.
    pub fn is_connected(&self) -> (r: bool)
        ensures
            r == self@ is Some,
    {
        self.stream.is_some()
    }

    /// Holds `stream`, in place of any held before.
    pub fn connect(&mut self, stream: S)
        ensures
            final(self)@ == Some(stream),
    {
        self.stream = Some(stream);
    }

    /// Gives up the stream held, if any, to be closed by the caller.
    pub fn disconnect(&mut self) -> (r: Option<S>)
        ensures
            r == old(self)@,
            final(self)@ is None,
    {
        self.stream.take()
    }

    /// Takes the stream to run the connection on; an error where there is
    /// none. The slot is empty afterwards either way.
    pub fn take_for_run(&mut self) -> (r: Result<S, ConnectionError>)
        ensures
            r == stream_for_run(old(self)@),
            old(self)@ matches Some(s) ==> r == Ok::<S, ConnectionError>(s),
            old(self)@ is None ==> r == Err::<S, ConnectionError>(ConnectionError::NoStream),
            final(self)@ is None,
    {
        match self.stream.take() {
            Some(s) => Ok(s),
            None => Err(ConnectionError::NoStream),
        }
    }

    /// The start of a run: takes the stream, and only once there is one,
    /// says whether the connection's channel is to be registered with the
    /// message bus before the first read (exactly when there is a bus). With
    /// no stream the run fails at once and the bus is not to be called.
    pub fn start_run(&mut self, has_bus: bool) -> (r: Result<RunStart<S>, ConnectionError>)
        ensures
            r == run_start(old(self)@, has_bus),
            old(self)@ is None ==> r is Err,
            old(self)@ matches Some(s) ==> r matches Ok(start) && start.stream == s
                && start.register_with_bus == has_bus,
            final(self)@ is None,
    {
        match self.take_for_run() {
            Ok(stream) => Ok(RunStart { stream, register_with_bus: has_bus }),
            Err(e) => Err(e),
        }
    }
}

/// How a run starts: the stream to run on, and whether the connection's
/// channel is registered with the message bus before the first read.
pub struct RunStart<S> {
    pub stream: S,
    pub register_with_bus: bool,
}

/// The start of a run from a slot that holds `held`.
pub open spec fn run_start<S>(held: Option<S>, has_bus: bool) -> Result<RunStart<S>, ConnectionError> {
    match held {
        Some(s) => Ok(RunStart { stream: s, register_with_bus: has_bus }),
        None => Err(ConnectionError::NoStream),
    }
}

/// A run without a stream fails before anything else, so the message bus
/// is never called; a run with a stream registers with the bus exactly when
/// there is one, and runs on the stream that was held.
pub proof fn no_bus_call_without_stream<S>(held: Option<S>, has_bus: bool)
    ensures
        held is None ==> run_start(held, has_bus) == Err::<RunStart<S>, ConnectionError>(ConnectionError::NoStream),
        held matches Some(s) ==> run_start(held, has_bus) matches Ok(start) && start.stream == s
            && start.register_with_bus == has_bus,
{
}

/// What a run of the connection gets from a slot that holds `held`.
pub open spec fn stream_for_run<S>(held: Option<S>) -> Result<S, ConnectionError> {
    match held {
        Some(s) => Ok(s),
        None => Err(ConnectionError::NoStream),
    }
}

/// A run after a connect gets the stream that the connect stored; a run
/// after a disconnect, or after another run, gets the error.
pub proof fn run_gets_connected_stream<S>(stream: S)
    ensures
        stream_for_run(Some(stream)) == Ok::<S, ConnectionError>(stream),
        stream_for_run::<S>(None) == Err::<S, ConnectionError>(ConnectionError::NoStream),
{
}

} // verus!

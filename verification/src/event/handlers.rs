//! The built-in handlers, one per kind of event. Each refuses the events of
//! the other kinds.

use vstd::prelude::*;

use crate::event::executor::EventType;
use crate::meta::{Event, EventResponse};

verus! {

/// Why a handler refused an event.
#[derive(Debug, Clone, Copy, PartialEq, Eq, Structural)]
pub enum HandlerError {
    /// The event is not of the kind that the handler for the given event
    /// type handles.
    InvalidEventType(EventType),
}

/// The name of the handler registered by default for an event type.
pub open spec fn handler_name(event_type: EventType) -> Seq<char> {
    match event_type {
        EventType::Search => "SearchHandler"@,
        EventType::Cancel => "CancelHandler"@,
        EventType::Benchmark => "BenchmarkHandler"@,
    }
}

/// The kind of an event, where it has one that a handler is registered for.
pub open spec fn event_type_of(event: Event) -> Option<EventType> {
    match event {
        Event::Search(_) => Some(EventType::Search),
        Event::Cancel(_) => Some(EventType::Cancel),
        Event::Benchmark(_) => Some(EventType::Benchmark),
        _ => None,
    }
}

impl HandlerError {
    /// The text of the error.
    pub fn message(&self) -> (r: String)
        ensures
            match *self {
                HandlerError::InvalidEventType(t) => r@ == "Invalid event type for "@ + handler_name(t),
            },
    {
        proof {
            reveal_strlit("Invalid event type for SearchHandler");
            reveal_strlit("Invalid event type for CancelHandler");
            reveal_strlit("Invalid event type for BenchmarkHandler");
            reveal_strlit("Invalid event type for ");
            reveal_strlit("SearchHandler");
            reveal_strlit("CancelHandler");
            reveal_strlit("BenchmarkHandler");
        }
        match self {
            HandlerError::InvalidEventType(EventType::Search) => {
                let r = String::from_str("Invalid event type for SearchHandler");
                assert(r@ =~= "Invalid event type for "@ + "SearchHandler"@);
                r
            },
            HandlerError::InvalidEventType(EventType::Cancel) => {
                let r = String::from_str("Invalid event type for CancelHandler");
                assert(r@ =~= "Invalid event type for "@ + "CancelHandler"@);
                r
            },
            HandlerError::InvalidEventType(EventType::Benchmark) => {
                let r = String::from_str("Invalid event type for BenchmarkHandler");
                assert(r@ =~= "Invalid event type for "@ + "BenchmarkHandler"@);
                r
            },
        }
    }
}

/// The handler for search events.
pub struct SearchHandler;

impl SearchHandler {
    pub fn new() -> (r: Self)
        ensures
            r == SearchHandler,
    {
        SearchHandler
    }

    /// Refuses every event but a search. Running a search is not done here:
    /// the caller leaves search events out.
    pub fn handle(&self, event: Event) -> (r: Result<EventResponse, HandlerError>)
        requires
            event_type_of(event) != Some(EventType::Search),
        ensures
            r == Err::<EventResponse, HandlerError>(HandlerError::InvalidEventType(EventType::Search)),
    {
        Err(HandlerError::InvalidEventType(EventType::Search))
    }
}

/// The handler for cancel events.
pub struct CancelHandler;

impl CancelHandler {
    pub fn new() -> (r: Self)
        ensures
            r == CancelHandler,
    {
        CancelHandler
    }

    /// Refuses every event but a cancel. Running a cancel is not done here:
    /// the caller leaves cancel events out.
    pub fn handle(&self, event: Event) -> (r: Result<EventResponse, HandlerError>)
        requires
            event_type_of(event) != Some(EventType::Cancel),
        ensures
            r == Err::<EventResponse, HandlerError>(HandlerError::InvalidEventType(EventType::Cancel)),
    {
        Err(HandlerError::InvalidEventType(EventType::Cancel))
    }
}

/// The handler for benchmark events.
pub struct BenchmarkHandler;

impl BenchmarkHandler {
    pub fn new() -> (r: Self)
        ensures
            r == BenchmarkHandler,
    {
        BenchmarkHandler
    }

    /// Refuses every event but a benchmark. Running a benchmark is not done
    /// here: the caller leaves benchmark events out.
    pub fn handle(&self, event: Event) -> (r: Result<EventResponse, HandlerError>)
        requires
            event_type_of(event) != Some(EventType::Benchmark),
        ensures
            r == Err::<EventResponse, HandlerError>(HandlerError::InvalidEventType(EventType::Benchmark)),
    {
        Err(HandlerError::InvalidEventType(EventType::Benchmark))
    }
}

} // verus!

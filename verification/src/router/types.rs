//! Messages between clients and the router, and the events that clients
//! send and receive.

use vstd::prelude::*;

use crate::meta::{
    BenchmarkRequest, CancelRequest, ClientId, Event, Response, SearchEventReq, SearchRequest,
};

verus! {

/// An event that a client sends to the router.
#[derive(Debug)]
pub enum WsClientEvents {
    Search(Box<SearchEventReq>),
    Cancel { trace_id: String },
    Benchmark { id: String },
}

/// The window of time that a search response covers.
#[derive(Debug, Clone, Copy, PartialEq, Eq, Structural)]
pub struct TimeOffset {
    pub start_time: i64,
    pub end_time: i64,
}

/// An event that the router sends to a client.
#[derive(Debug)]
pub enum WsServerEvents {
    SearchResponse {
        trace_id: String,
        results: Box<Response>,
        time_offset: TimeOffset,
        streaming_aggs: bool,
    },
    End { trace_id: Option<String> },
}

/// A message between a client and the router.
#[derive(Debug)]
pub struct WsMessage {
    pub trace_id: String,
    pub client_id: ClientId,
    pub event: Event,
}

/// The client id that a message carries until one is assigned.
pub open spec fn default_client_id() -> Seq<char> {
    "default"@
}

/// `m` is the message made for the client event `e`: the default client
/// id, the request kept whole, and as trace id that of the search or cancel,
/// or the id of the benchmark.
pub open spec fn is_message_for_client_event(e: WsClientEvents, m: WsMessage) -> bool {
    &&& m.client_id.0@ == default_client_id()
    &&& match e {
        WsClientEvents::Search(req) => {
            &&& m.trace_id@ == req.trace_id@
            &&& m.event == Event::Search(
                Box::new(SearchRequest { trace_id: req.trace_id, search_event_req: req }),
            )
        },
        WsClientEvents::Cancel { trace_id } => {
            &&& m.trace_id@ == trace_id@
            &&& m.event == Event::Cancel(CancelRequest { trace_id })
        },
        WsClientEvents::Benchmark { id } => {
            &&& m.trace_id@ == id@
            &&& m.event == Event::Benchmark(BenchmarkRequest { id })
        },
    }
}

/// Whether a message with this event is passed on to the client.
pub open spec fn has_server_event(e: Event) -> bool {
    e is Response || e is End
}

impl WsMessage {
    /// A message for `event` under `trace_id`, with the default client id.
    pub fn new(trace_id: &str, event: Event) -> (r: Self)
        ensures
            r.trace_id@ == trace_id@,
            r.client_id.0@ == default_client_id(),
            r.event == event,
    {
        WsMessage {
            trace_id: trace_id.to_owned(),
            client_id: ClientId(String::from_str("default")),
            event,
        }
    }

    /// The message for an event from a client: the request is kept whole,
    /// and the message's trace id is that of the search or cancel, or the
    /// id of the benchmark.
    pub fn from_client_event(event: WsClientEvents) -> (r: Self)
        ensures
            is_message_for_client_event(event, r),
            r.client_id.0@ == "default"@,
            event matches WsClientEvents::Search(req) ==> (r.trace_id@ == req.trace_id@ && (r.event matches Event::Search(
                s,
            ) && s.trace_id == req.trace_id && s.search_event_req.trace_id == req.trace_id
                && s.search_event_req.payload == req.payload)),
            event matches WsClientEvents::Cancel { trace_id } ==> (r.trace_id@ == trace_id@ && (r.event matches Event::Cancel(
                c,
            ) && c.trace_id == trace_id)),
            event matches WsClientEvents::Benchmark { id } ==> (r.trace_id@ == id@ && (r.event matches Event::Benchmark(
                b,
            ) && b.id == id)),
    {
        match event {
            WsClientEvents::Search(req) => {
                let trace_id = req.trace_id.clone();
                Self::new(
                    trace_id.as_str(),
                    Event::Search(Box::new(SearchRequest { trace_id: trace_id.clone(), search_event_req: req })),
                )
            },
            WsClientEvents::Cancel { trace_id } => {
                Self::new(trace_id.as_str(), Event::Cancel(CancelRequest { trace_id: trace_id.clone() }))
            },
            WsClientEvents::Benchmark { id } => {
                Self::new(id.as_str(), Event::Benchmark(BenchmarkRequest { id: id.clone() }))
            },
        }
    }

    /// The event to send to the client for this message: a search response
    /// for a response, an end marker for an end, and nothing for the rest.
    pub fn to_server_event(&self) -> (r: Option<WsServerEvents>)
        ensures
            r is Some <==> has_server_event(self.event),
            match self.event {
                Event::Response(response) => r == Some(WsServerEvents::SearchResponse {
                    trace_id: self.trace_id,
                    results: response.response,
                    time_offset: TimeOffset { start_time: 0, end_time: 0 },
                    streaming_aggs: false,
                }),
                Event::End => r == Some(WsServerEvents::End { trace_id: Some(self.trace_id) }),
                _ => r is None,
            },
    {
        match &self.event {
            Event::Response(response) => Some(WsServerEvents::SearchResponse {
                trace_id: self.trace_id.clone(),
                results: Box::new(response.response.duplicate()),
                time_offset: TimeOffset { start_time: 0, end_time: 0 },
                streaming_aggs: false,
            }),
            Event::End => Some(WsServerEvents::End { trace_id: Some(self.trace_id.clone()) }),
            _ => None,
        }
    }
}

/// The request inside a message made from a search event is the client's
/// request unchanged: same trace id, same payload.
pub proof fn client_search_request_is_kept(req: Box<SearchEventReq>, m: WsMessage)
    requires
        is_message_for_client_event(WsClientEvents::Search(req), m),
    ensures
        m.event matches Event::Search(s) && s.search_event_req.payload == req.payload
            && s.search_event_req.trace_id == req.trace_id && s.trace_id == req.trace_id,
        m.trace_id@ == req.trace_id@,
{
}

/// A message made from a client event is never passed back to a client as
/// a server event: clients send requests, and only responses and end
/// markers go back.
pub proof fn client_event_is_not_echoed(e: WsClientEvents, m: WsMessage)
    requires
        is_message_for_client_event(e, m),
    ensures
        !has_server_event(m.event),
{
}

/// The event inside a message made from a client event carries the same
/// trace id as the message, so that every part of one search is routed by
/// one key.
pub proof fn client_event_trace_ids_agree(e: WsClientEvents, m: WsMessage)
    requires
        is_message_for_client_event(e, m),
    ensures
        match m.event {
            Event::Search(req) => req.trace_id@ == m.trace_id@,
            Event::Cancel(req) => req.trace_id@ == m.trace_id@,
            Event::Benchmark(req) => req.id@ == m.trace_id@,
            _ => false,
        },
{
}

} // verus!

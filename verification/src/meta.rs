//! Identifiers, requests and the messages that travel over the websocket layer.

use vstd::prelude::*;

verus! {

/// The identifier of a client connected to the router.
#[derive(Debug, Clone, Hash, PartialEq, Eq)]
pub struct ClientId(pub String);

impl ClientId {
    /// Wraps `id` as a client identifier.
    pub fn new(id: String) -> (r: Self)
        ensures
            r.0 == id,
    {
        Self(id)
    }
}

/// The identifier of a querier node known to the router.
#[derive(Debug, Clone, Hash, PartialEq, Eq)]
pub struct QuerierId(pub String);

impl QuerierId {
    /// Wraps `id` as a querier identifier.
    pub fn new(id: String) -> (r: Self)
        ensures
            r.0 == id,
    {
        Self(id)
    }
}

/// The identifier that ties every message of one search together.
pub type TraceId = String;

/// A search request as a client sends it. Routing reads only its trace id;
/// the rest of the request travels on untouched as its JSON text.
#[derive(Debug, Clone)]
pub struct SearchEventReq {
    pub trace_id: TraceId,
    pub payload: String,
}

impl SearchEventReq {
    /// A copy of this request with equal fields.
    pub fn duplicate(&self) -> (r: Self)
        ensures
            r == *self,
    {
        SearchEventReq { trace_id: self.trace_id.clone(), payload: self.payload.clone() }
    }
}

/// The result of a search, carried as its JSON text.
#[derive(Debug, Clone)]
pub struct Response {
    pub payload: String,
}

impl Response {
    /// A copy of this response with equal fields.
    pub fn duplicate(&self) -> (r: Self)
        ensures
            r == *self,
    {
        Response { payload: self.payload.clone() }
    }
}

/// A search to run on a querier.
#[derive(Debug, Clone)]
pub struct SearchRequest {
    pub trace_id: TraceId,
    pub search_event_req: Box<SearchEventReq>,
}

impl SearchRequest {
    /// A copy of this request with equal fields.
    pub fn duplicate(&self) -> (r: Self)
        ensures
            r == *self,
    {
        SearchRequest {
            trace_id: self.trace_id.clone(),
            search_event_req: Box::new(self.search_event_req.duplicate()),
        }
    }
}

/// A request to cancel the search with the given trace id.
#[derive(Debug, Clone)]
pub struct CancelRequest {
    pub trace_id: TraceId,
}

/// A request to run the benchmark with the given id.
#[derive(Debug, Clone)]
pub struct BenchmarkRequest {
    pub id: String,
}

impl BenchmarkRequest {
    /// A copy of this request with an equal id.
    pub fn duplicate(&self) -> (r: Self)
        ensures
            r == *self,
    {
        BenchmarkRequest { id: self.id.clone() }
    }
}

/// The answer of a querier to one search.
#[derive(Debug, Clone)]
pub struct EventResponse {
    pub trace_id: TraceId,
    pub response: Box<Response>,
}

/// What a websocket message carries.
#[derive(Debug, Clone)]
pub enum Event {
    Search(Box<SearchRequest>),
    Cancel(CancelRequest),
    Benchmark(BenchmarkRequest),
    Response(EventResponse),
    End,
}

/// A message between the router and a querier.
#[derive(Debug, Clone)]
pub struct WsMessage {
    pub trace_id: TraceId,
    pub event: Event,
}

} // verus!

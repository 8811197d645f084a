//! The executor that tracks running searches and the handler registered for
//! each kind of event.

use dashmap::DashMap;
use tokio::sync::broadcast;
use vstd::prelude::*;

use crate::meta::{BenchmarkRequest, CancelRequest, SearchRequest};

verus! {

/// The kinds of event that a handler can be registered for.
#[derive(Debug, Clone, Copy, Hash, PartialEq, Eq, Structural)]
pub enum EventType {
    Search,
    Cancel,
    Benchmark,
}

/// A handle on a running search that can ask it to stop.
#[derive(Clone)]
pub struct CancellationToken {
    _cancel: broadcast::Sender<()>,
}

/// The sending half of `tokio::sync::broadcast::channel(1)`; the receiving
/// half is dropped at once. Nothing is claimed of the sender.
#[verifier::external_body]
fn cancel_channel() -> broadcast::Sender<()> {
    broadcast::channel(1).0
}

/// Calls `tokio::sync::broadcast::Sender::send` with the unit value and
/// discards its result, which depends on how many receivers are alive.
#[verifier::external_body]
fn send_cancel_signal(sender: &broadcast::Sender<()>) {
    let _ = sender.send(());
}

impl CancellationToken {
    /// A fresh token.
    pub fn new() -> Self {
        CancellationToken { _cancel: cancel_channel() }
    }

    /// Signals every receiver of this token.
    pub fn cancel(&self) {
        send_cancel_signal(&self._cancel);
    }
}

/// The handlers registered in a handler map, by event type: each event type
/// maps to the slot of its handler.
pub uninterp spec fn registered_handlers(m: DashMap<EventType, u64>) -> Map<EventType, u64>;

/// The trace ids held as keys in a map of running searches.
pub uninterp spec fn active_trace_ids(m: DashMap<String, CancellationToken>) -> Set<Seq<char>>;

/// `DashMap::new` for the handler map: the map starts empty.
#[verifier::external_body]
fn new_handler_map() -> (r: DashMap<EventType, u64>)
    ensures
        registered_handlers(r).is_empty(),
{
    DashMap::new()
}

/// `DashMap::insert` on the handler map: afterwards `event_type` maps to
/// `slot` and every other entry is as it was.
#[verifier::external_body]
fn insert_handler(m: &mut DashMap<EventType, u64>, event_type: EventType, slot: u64)
    ensures
        registered_handlers(*final(m)) == registered_handlers(*old(m)).insert(event_type, slot),
{
    m.insert(event_type, slot);
}

/// `DashMap::get` on the handler map, copying out the slot found.
#[verifier::external_body]
fn get_handler(m: &DashMap<EventType, u64>, event_type: &EventType) -> (r: Option<u64>)
    ensures
        r == (if registered_handlers(*m).contains_key(*event_type) {
            Some(registered_handlers(*m)[*event_type])
        } else {
            None
        }),
{
    m.get(event_type).map(|entry| *entry.value())
}

/// `DashMap::new` for the map of running searches: the map starts empty.
#[verifier::external_body]
fn new_active_map() -> (r: DashMap<String, CancellationToken>)
    ensures
        active_trace_ids(r).is_empty(),
{
    DashMap::new()
}

/// `DashMap::insert` on the map of running searches: afterwards the keys are
/// those before and `trace_id`.
#[verifier::external_body]
fn insert_active(m: &mut DashMap<String, CancellationToken>, trace_id: String, token: CancellationToken)
    ensures
        active_trace_ids(*final(m)) == active_trace_ids(*old(m)).insert(trace_id@),
{
    m.insert(trace_id, token);
}

/// `DashMap::remove` on the map of running searches: afterwards the keys are
/// those before without `trace_id`.
#[verifier::external_body]
fn remove_active(m: &mut DashMap<String, CancellationToken>, trace_id: &String)
    ensures
        active_trace_ids(*final(m)) == active_trace_ids(*old(m)).remove(trace_id@),
{
    m.remove(trace_id);
}

/// `DashMap::get` on the map of running searches, cloning out the token
/// found; there is one exactly when `trace_id` is a key.
#[verifier::external_body]
fn get_active(m: &DashMap<String, CancellationToken>, trace_id: &String) -> (r: Option<CancellationToken>)
    ensures
        r is Some <==> active_trace_ids(*m).contains(trace_id@),
{
    m.get(trace_id).map(|entry| entry.value().clone())
}

/// The slot of the handler registered by default for search events.
pub const SEARCH_HANDLER_SLOT: u64 = 0;
/// The slot of the handler registered by default for cancel events.
pub const CANCEL_HANDLER_SLOT: u64 = 1;
/// The slot of the handler registered by default for benchmark events.
pub const BENCHMARK_HANDLER_SLOT: u64 = 2;

/// Why the executor could not run an event.
#[derive(Debug, Clone, Copy, PartialEq, Eq, Structural)]
pub enum ExecutorError {
    /// No handler is registered for the event type.
    NoHandlerRegistered(EventType),
}

/// The name of an event type as it reads in messages.
pub open spec fn event_type_name(event_type: EventType) -> Seq<char> {
    match event_type {
        EventType::Search => "Search"@,
        EventType::Cancel => "Cancel"@,
        EventType::Benchmark => "Benchmark"@,
    }
}

impl ExecutorError {
    /// The text of the error.
    pub fn message(&self) -> (r: String)
        ensures
            match *self {
                ExecutorError::NoHandlerRegistered(t) => r@ == "No handler registered for "@
                    + event_type_name(t),
            },
    {
        proof {
            reveal_strlit("No handler registered for Search");
            reveal_strlit("No handler registered for Cancel");
            reveal_strlit("No handler registered for Benchmark");
            reveal_strlit("No handler registered for ");
            reveal_strlit("Search");
            reveal_strlit("Cancel");
            reveal_strlit("Benchmark");
        }
        match self {
            ExecutorError::NoHandlerRegistered(EventType::Search) => {
                let r = String::from_str("No handler registered for Search");
                assert(r@ =~= "No handler registered for "@ + "Search"@);
                r
            },
            ExecutorError::NoHandlerRegistered(EventType::Cancel) => {
                let r = String::from_str("No handler registered for Cancel");
                assert(r@ =~= "No handler registered for "@ + "Cancel"@);
                r
            },
            ExecutorError::NoHandlerRegistered(EventType::Benchmark) => {
                let r = String::from_str("No handler registered for Benchmark");
                assert(r@ =~= "No handler registered for "@ + "Benchmark"@);
                r
            },
        }
    }
}

/// What an executor holds, as mathematics: the handler slot of each event
/// type that has one, and the trace ids of the searches that are running.
pub struct ExecutorView {
    pub handlers: Map<EventType, u64>,
    pub active_searches: Set<Seq<char>>,
}

impl ExecutorView {
    /// The view after registering the handler in `slot` for `event_type`.
    pub open spec fn with_handler(self, event_type: EventType, slot: u64) -> ExecutorView {
        ExecutorView { handlers: self.handlers.insert(event_type, slot), active_searches: self.active_searches }
    }

    /// The view after a search with `trace_id` starts.
    pub open spec fn with_search(self, trace_id: Seq<char>) -> ExecutorView {
        ExecutorView { handlers: self.handlers, active_searches: self.active_searches.insert(trace_id) }
    }

    /// The view after the search with `trace_id` finishes.
    pub open spec fn without_search(self, trace_id: Seq<char>) -> ExecutorView {
        ExecutorView { handlers: self.handlers, active_searches: self.active_searches.remove(trace_id) }
    }
}

/// The handlers registered by `EventExecutor::new`.
pub open spec fn default_handlers() -> Map<EventType, u64> {
    map![
        EventType::Search => SEARCH_HANDLER_SLOT,
        EventType::Cancel => CANCEL_HANDLER_SLOT,
        EventType::Benchmark => BENCHMARK_HANDLER_SLOT,
    ]
}

/// The handler lookup that the executor makes, over the view.
pub open spec fn lookup_handler(handlers: Map<EventType, u64>, event_type: EventType) -> Result<u64, ExecutorError> {
    if handlers.contains_key(event_type) {
        Ok(handlers[event_type])
    } else {
        Err(ExecutorError::NoHandlerRegistered(event_type))
    }
}

/// Runs the events that reach a querier. Handlers are held by slot: the
/// caller keeps the handler objects and finds them again by the slot that
/// the executor hands back.
pub struct EventExecutor {
    handlers: DashMap<EventType, u64>,
    active_searches: DashMap<String, CancellationToken>,
}

impl View for EventExecutor {
    type V = ExecutorView;

    closed spec fn view(&self) -> ExecutorView {
        ExecutorView {
            handlers: registered_handlers(self.handlers),
            active_searches: active_trace_ids(self.active_searches),
        }
    }
}

impl EventExecutor {
    /// An executor with the default handlers registered and no search
    /// running.
    pub fn new() -> (r: Self)
        ensures
            r@ == fresh_executor(),
            r@.handlers.contains_key(EventType::Search) && r@.handlers[EventType::Search] == SEARCH_HANDLER_SLOT,
            r@.handlers.contains_key(EventType::Cancel) && r@.handlers[EventType::Cancel] == CANCEL_HANDLER_SLOT,
            r@.handlers.contains_key(EventType::Benchmark) && r@.handlers[EventType::Benchmark]
                == BENCHMARK_HANDLER_SLOT,
            forall|t: Seq<char>| !(#[trigger] r@.active_searches.contains(t)),
    {
        let mut executor = EventExecutor { handlers: new_handler_map(), active_searches: new_active_map() };
        executor.register_handler(EventType::Search, SEARCH_HANDLER_SLOT);
        executor.register_handler(EventType::Cancel, CANCEL_HANDLER_SLOT);
        executor.register_handler(EventType::Benchmark, BENCHMARK_HANDLER_SLOT);
        assert(executor@.handlers =~= default_handlers());
        executor
    }

    /// Registers the handler in `slot` for `event_type`, in place of any
    /// registered before.
    pub fn register_handler(&mut self, event_type: EventType, slot: u64)
        ensures
            final(self)@ == old(self)@.with_handler(event_type, slot),
            final(self)@.handlers.contains_key(event_type) && final(self)@.handlers[event_type] == slot,
            forall|t: EventType|
                t != event_type ==> (#[trigger] final(self)@.handlers.contains_key(t) == old(
                    self,
                )@.handlers.contains_key(t) && final(self)@.handlers[t] == old(self)@.handlers[t]),
            final(self)@.active_searches == old(self)@.active_searches,
    {
        insert_handler(&mut self.handlers, event_type, slot);
    }

    /// The first half of running a search: records the search as running
    /// under its trace id, then looks up the search handler. The caller runs
    /// the handler found and then calls `finish_search`; where no handler is
    /// found the search stays recorded.
    pub fn start_search(&mut self, req: &SearchRequest) -> (r: Result<u64, ExecutorError>)
        ensures
            final(self)@ == old(self)@.with_search(req.trace_id@),
            r == lookup_handler(old(self)@.handlers, EventType::Search),
            final(self)@.active_searches.contains(req.trace_id@),
            forall|t: Seq<char>|
                t != req.trace_id@ ==> (#[trigger] final(self)@.active_searches.contains(t) == old(
                    self,
                )@.active_searches.contains(t)),
            final(self)@.handlers == old(self)@.handlers,
            r is Ok <==> old(self)@.handlers.contains_key(EventType::Search),
            r matches Ok(slot) ==> slot == old(self)@.handlers[EventType::Search],
            r matches Err(e) ==> e == ExecutorError::NoHandlerRegistered(EventType::Search),
    {
        let token = CancellationToken::new();
        insert_active(&mut self.active_searches, req.trace_id.clone(), token);
        match get_handler(&self.handlers, &EventType::Search) {
            Some(slot) => Ok(slot),
            None => Err(ExecutorError::NoHandlerRegistered(EventType::Search)),
        }
    }

    /// The second half of running a search: the search is no longer running.
    pub fn finish_search(&mut self, req: &SearchRequest)
        ensures
            final(self)@ == old(self)@.without_search(req.trace_id@),
            !final(self)@.active_searches.contains(req.trace_id@),
            forall|t: Seq<char>|
                t != req.trace_id@ ==> (#[trigger] final(self)@.active_searches.contains(t) == old(
                    self,
                )@.active_searches.contains(t)),
            final(self)@.handlers == old(self)@.handlers,
    {
        remove_active(&mut self.active_searches, &req.trace_id);
    }

    /// Signals the search with the request's trace id to stop, where one is
    /// running; it stays recorded until it finishes. Reports whether one was
    /// running.
    pub fn execute_cancel(&self, req: &CancelRequest) -> (r: bool)
        ensures
            r == self@.active_searches.contains(req.trace_id@),
    {
        match get_active(&self.active_searches, &req.trace_id) {
            Some(token) => {
                token.cancel();
                true
            },
            None => false,
        }
    }

    /// Looks up the handler for a benchmark; the caller runs it.
    pub fn benchmark_handler(&self, req: &BenchmarkRequest) -> (r: Result<u64, ExecutorError>)
        ensures
            r == lookup_handler(self@.handlers, EventType::Benchmark),
            r is Ok <==> self@.handlers.contains_key(EventType::Benchmark),
            r matches Ok(slot) ==> slot == self@.handlers[EventType::Benchmark],
            r matches Err(e) ==> e == ExecutorError::NoHandlerRegistered(EventType::Benchmark),
    {
        match get_handler(&self.handlers, &EventType::Benchmark) {
            Some(slot) => Ok(slot),
            None => Err(ExecutorError::NoHandlerRegistered(EventType::Benchmark)),
        }
    }
}

/// Running a search leaves no record of it: starting and then finishing a
/// search with a trace id gives the searches running before, without that
/// trace id, and the same handlers.
pub proof fn search_leaves_no_record(v: ExecutorView, trace_id: Seq<char>)
    ensures
        v.with_search(trace_id).without_search(trace_id).active_searches == v.active_searches.remove(trace_id),
        !v.with_search(trace_id).without_search(trace_id).active_searches.contains(trace_id),
        v.with_search(trace_id).without_search(trace_id).handlers == v.handlers,
{
    assert(v.with_search(trace_id).without_search(trace_id).active_searches =~= v.active_searches.remove(trace_id));
}

/// While a search runs, a cancel for its trace id finds it; and starting a
/// search leaves every other running search in place.
pub proof fn started_search_is_cancellable(v: ExecutorView, trace_id: Seq<char>, other: Seq<char>)
    ensures
        v.with_search(trace_id).active_searches.contains(trace_id),
        v.active_searches.contains(other) ==> v.with_search(trace_id).active_searches.contains(other),
{
}

/// Finishing a search leaves every other running search in place.
pub proof fn finish_keeps_other_searches(v: ExecutorView, trace_id: Seq<char>, other: Seq<char>)
    requires
        other != trace_id,
    ensures
        v.without_search(trace_id).active_searches.contains(other) == v.active_searches.contains(other),
{
}

/// The lookup after a registration gives back the slot registered; lookups
/// for other event types are unchanged.
pub proof fn registered_handler_is_found(v: ExecutorView, event_type: EventType, slot: u64, other: EventType)
    ensures
        lookup_handler(v.with_handler(event_type, slot).handlers, event_type) == Ok::<u64, ExecutorError>(slot),
        other != event_type ==> lookup_handler(v.with_handler(event_type, slot).handlers, other)
            == lookup_handler(v.handlers, other),
{
}

/// A fresh executor has a handler for every event type: the default one.
pub proof fn default_handlers_cover_every_event_type(event_type: EventType)
    ensures
        lookup_handler(default_handlers(), event_type) == Ok::<u64, ExecutorError>(match event_type {
            EventType::Search => SEARCH_HANDLER_SLOT,
            EventType::Cancel => CANCEL_HANDLER_SLOT,
            EventType::Benchmark => BENCHMARK_HANDLER_SLOT,
        }),
{
}

/// An operation that changes an executor: registering a handler, starting
/// a search, finishing a search. The other operations leave it as it is.
pub enum ExecutorOp {
    Register(EventType, u64),
    Start(Seq<char>),
    Finish(Seq<char>),
}

/// The view after one operation.
pub open spec fn apply_op(v: ExecutorView, op: ExecutorOp) -> ExecutorView {
    match op {
        ExecutorOp::Register(event_type, slot) => v.with_handler(event_type, slot),
        ExecutorOp::Start(trace_id) => v.with_search(trace_id),
        ExecutorOp::Finish(trace_id) => v.without_search(trace_id),
    }
}

/// The view after a sequence of operations, in order.
pub open spec fn apply_ops(v: ExecutorView, ops: Seq<ExecutorOp>) -> ExecutorView
    decreases ops.len(),
{
    if ops.len() == 0 {
        v
    } else {
        apply_op(apply_ops(v, ops.drop_last()), ops.last())
    }
}

/// The view of a fresh executor.
pub open spec fn fresh_executor() -> ExecutorView {
    ExecutorView { handlers: default_handlers(), active_searches: Set::empty() }
}

/// Every event type has a handler.
pub open spec fn covers_every_event_type(handlers: Map<EventType, u64>) -> bool {
    forall|t: EventType| #[trigger] handlers.contains_key(t)
}

/// Every state that an executor reaches from `EventExecutor::new` has a
/// handler for every event type, so the lookups of `start_search` and
/// `benchmark_handler` never fail with `NoHandlerRegistered`.
pub proof fn reachable_executors_have_every_handler(ops: Seq<ExecutorOp>, event_type: EventType)
    ensures
        covers_every_event_type(apply_ops(fresh_executor(), ops).handlers),
        lookup_handler(apply_ops(fresh_executor(), ops).handlers, event_type) is Ok,
    decreases ops.len(),
{
    if ops.len() == 0 {
        assert forall|t: EventType| #[trigger] default_handlers().contains_key(t) by {
            match t {
                EventType::Search => {},
                EventType::Cancel => {},
                EventType::Benchmark => {},
            }
        }
    } else {
        reachable_executors_have_every_handler(ops.drop_last(), event_type);
        let before = apply_ops(fresh_executor(), ops.drop_last());
        assert forall|t: EventType| #[trigger] apply_op(before, ops.last()).handlers.contains_key(t) by {
            assert(before.handlers.contains_key(t));
        }
    }
}

} // verus!

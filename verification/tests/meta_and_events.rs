use websocket_v2::event::executor::{
    CancellationToken, EventExecutor, EventType, ExecutorError, BENCHMARK_HANDLER_SLOT,
    CANCEL_HANDLER_SLOT, SEARCH_HANDLER_SLOT,
};
use websocket_v2::event::handlers::{BenchmarkHandler, CancelHandler, HandlerError, SearchHandler};
use websocket_v2::meta::{
    BenchmarkRequest, CancelRequest, ClientId, Event, QuerierId, SearchEventReq, SearchRequest,
};

fn search_request(trace_id: &str) -> SearchRequest {
    SearchRequest {
        trace_id: trace_id.to_string(),
        search_event_req: Box::new(SearchEventReq {
            trace_id: trace_id.to_string(),
            payload: "{\"sql\":\"select 1\"}".to_string(),
        }),
    }
}

#[test]
fn client_id_new_keeps_the_id() {
    let id = ClientId::new("client-7".to_string());
    assert_eq!(id.0, "client-7");
    assert_eq!(id, ClientId("client-7".to_string()));
}

#[test]
fn querier_id_new_keeps_the_id() {
    let id = QuerierId::new("querier-1".to_string());
    assert_eq!(id.0, "querier-1");
}

#[test]
fn search_handler_refuses_other_events() {
    let handler = SearchHandler::new();
    let r = handler.handle(Event::End);
    assert!(matches!(r, Err(HandlerError::InvalidEventType(EventType::Search))));
    let r = handler.handle(Event::Cancel(CancelRequest { trace_id: "t".to_string() }));
    match r {
        Err(e) => assert_eq!(e.message(), "Invalid event type for SearchHandler"),
        Ok(_) => panic!("accepted a cancel"),
    }
}

#[test]
fn cancel_handler_refuses_other_events() {
    let handler = CancelHandler::new();
    let r = handler.handle(Event::Benchmark(BenchmarkRequest { id: "b".to_string() }));
    match r {
        Err(e) => {
            assert_eq!(e, HandlerError::InvalidEventType(EventType::Cancel));
            assert_eq!(e.message(), "Invalid event type for CancelHandler");
        }
        Ok(_) => panic!("accepted a benchmark"),
    }
}

#[test]
fn benchmark_handler_refuses_other_events() {
    let handler = BenchmarkHandler::new();
    let r = handler.handle(Event::Search(Box::new(search_request("t1"))));
    match r {
        Err(e) => assert_eq!(e.message(), "Invalid event type for BenchmarkHandler"),
        Ok(_) => panic!("accepted a search"),
    }
}

#[test]
fn new_executor_has_default_handlers() {
    let mut executor = EventExecutor::new();
    assert_eq!(executor.benchmark_handler(&BenchmarkRequest { id: "b".to_string() }), Ok(BENCHMARK_HANDLER_SLOT));
    assert_eq!(executor.start_search(&search_request("t1")), Ok(SEARCH_HANDLER_SLOT));
    assert_ne!(SEARCH_HANDLER_SLOT, CANCEL_HANDLER_SLOT);
}

#[test]
fn register_handler_replaces_the_slot() {
    let mut executor = EventExecutor::new();
    executor.register_handler(EventType::Benchmark, 42);
    assert_eq!(executor.benchmark_handler(&BenchmarkRequest { id: "b".to_string() }), Ok(42));
    executor.register_handler(EventType::Search, 9);
    assert_eq!(executor.start_search(&search_request("t2")), Ok(9));
}

#[test]
fn search_is_recorded_until_finished() {
    let mut executor = EventExecutor::new();
    let req = search_request("trace-a");
    assert!(!executor.execute_cancel(&CancelRequest { trace_id: "trace-a".to_string() }));
    let _ = executor.start_search(&req);
    assert!(executor.execute_cancel(&CancelRequest { trace_id: "trace-a".to_string() }));
    assert!(!executor.execute_cancel(&CancelRequest { trace_id: "trace-b".to_string() }));
    executor.finish_search(&req);
    assert!(!executor.execute_cancel(&CancelRequest { trace_id: "trace-a".to_string() }));
}

#[test]
fn search_leaves_no_record_on_concrete_values() {
    let mut executor = EventExecutor::new();
    let other = search_request("other");
    let _ = executor.start_search(&other);
    let req = search_request("mine");
    let _ = executor.start_search(&req);
    executor.finish_search(&req);
    assert!(!executor.execute_cancel(&CancelRequest { trace_id: "mine".to_string() }));
    assert!(executor.execute_cancel(&CancelRequest { trace_id: "other".to_string() }));
}

#[test]
fn cancel_reports_running_searches_only() {
    let mut executor = EventExecutor::new();
    let cancel = CancelRequest { trace_id: "trace-c".to_string() };
    assert!(!executor.execute_cancel(&cancel));
    let req = search_request("trace-c");
    let _ = executor.start_search(&req);
    assert!(executor.execute_cancel(&cancel));
    assert!(executor.execute_cancel(&CancelRequest { trace_id: "trace-c".to_string() }));
    executor.finish_search(&req);
    assert!(!executor.execute_cancel(&cancel));
}

#[test]
fn executor_error_message_names_the_event_type() {
    assert_eq!(ExecutorError::NoHandlerRegistered(EventType::Search).message(), "No handler registered for Search");
    assert_eq!(
        ExecutorError::NoHandlerRegistered(EventType::Benchmark).message(),
        "No handler registered for Benchmark"
    );
    assert_eq!(ExecutorError::NoHandlerRegistered(EventType::Cancel).message(), "No handler registered for Cancel");
}

#[test]
fn cancellation_token_can_be_cancelled_twice() {
    let token = CancellationToken::new();
    let copy = token.clone();
    token.cancel();
    copy.cancel();
}

#[test]
fn search_request_duplicate_is_equal() {
    let req = search_request("dup");
    let copy = req.duplicate();
    assert_eq!(copy.trace_id, "dup");
    assert_eq!(copy.search_event_req.trace_id, "dup");
    assert_eq!(copy.search_event_req.payload, req.search_event_req.payload);
}

#[test]
fn executor_keeps_every_handler_after_any_operations() {
    let mut executor = EventExecutor::new();
    executor.register_handler(EventType::Search, 11);
    let req = search_request("x");
    let _ = executor.start_search(&req);
    executor.finish_search(&req);
    executor.register_handler(EventType::Benchmark, 12);
    assert!(executor.benchmark_handler(&BenchmarkRequest { id: "b".to_string() }).is_ok());
    assert!(executor.start_search(&search_request("y")).is_ok());
}

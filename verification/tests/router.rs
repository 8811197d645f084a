use std::time::Duration;

use tokio::sync::mpsc;
use websocket_v2::connection::{
    next_action, ConnectionError, ConnectionKind, StreamAction, StreamEvent, StreamSlot,
};
use websocket_v2::meta::{
    BenchmarkRequest, ClientId, Event, EventResponse, QuerierId, Response, SearchEventReq,
    WsMessage as BusMessage,
};
use websocket_v2::router::error::WsError;
use websocket_v2::router::health::{micros_since_epoch, HealthMonitor};
use websocket_v2::router::message_bus::RouterMessageBus;
use websocket_v2::router::types::{TimeOffset, WsClientEvents, WsMessage, WsServerEvents};

fn bus_message(trace_id: &str) -> BusMessage {
    BusMessage { trace_id: trace_id.to_string(), event: Event::End }
}

#[test]
fn ws_message_new_uses_default_client() {
    let m = WsMessage::new("t-1", Event::End);
    assert_eq!(m.trace_id, "t-1");
    assert_eq!(m.client_id, ClientId("default".to_string()));
    assert!(matches!(m.event, Event::End));
}

#[test]
fn from_client_event_search_keeps_trace_id() {
    let req = SearchEventReq { trace_id: "s-1".to_string(), payload: "{}".to_string() };
    let m = WsMessage::from_client_event(WsClientEvents::Search(Box::new(req)));
    assert_eq!(m.trace_id, "s-1");
    assert_eq!(m.client_id.0, "default");
    match m.event {
        Event::Search(s) => {
            assert_eq!(s.trace_id, "s-1");
            assert_eq!(s.search_event_req.trace_id, "s-1");
            assert_eq!(s.search_event_req.payload, "{}");
        }
        _ => panic!("not a search"),
    }
}

#[test]
fn from_client_event_cancel_and_benchmark() {
    let m = WsMessage::from_client_event(WsClientEvents::Cancel { trace_id: "c-1".to_string() });
    assert_eq!(m.trace_id, "c-1");
    assert!(matches!(m.event, Event::Cancel(ref c) if c.trace_id == "c-1"));
    let m = WsMessage::from_client_event(WsClientEvents::Benchmark { id: "b-1".to_string() });
    assert_eq!(m.trace_id, "b-1");
    assert!(matches!(m.event, Event::Benchmark(ref b) if b.id == "b-1"));
    assert!(m.to_server_event().is_none());
}

#[test]
fn to_server_event_for_response_and_end() {
    let m = WsMessage::new(
        "r-1",
        Event::Response(EventResponse {
            trace_id: "r-1".to_string(),
            response: Box::new(Response { payload: "{\"hits\":[]}".to_string() }),
        }),
    );
    match m.to_server_event() {
        Some(WsServerEvents::SearchResponse { trace_id, results, time_offset, streaming_aggs }) => {
            assert_eq!(trace_id, "r-1");
            assert_eq!(results.payload, "{\"hits\":[]}");
            assert_eq!(time_offset, TimeOffset { start_time: 0, end_time: 0 });
            assert!(!streaming_aggs);
        }
        _ => panic!("expected a search response"),
    }
    let m = WsMessage::new("e-1", Event::End);
    match m.to_server_event() {
        Some(WsServerEvents::End { trace_id }) => assert_eq!(trace_id, Some("e-1".to_string())),
        _ => panic!("expected an end"),
    }
    let m = WsMessage::new("x", Event::Benchmark(BenchmarkRequest { id: "x".to_string() }));
    assert!(m.to_server_event().is_none());
}

#[test]
fn registered_querier_is_selected() {
    let mut bus = RouterMessageBus::new();
    let (tx, _rx) = mpsc::channel(4);
    assert!(bus.select_querier(Some("node-1".to_string())).is_none());
    bus.register_querier(QuerierId::new("node-1".to_string()), tx.clone());
    let found = bus.select_querier(Some("node-1".to_string())).expect("registered");
    assert!(found.same_channel(&tx));
    assert!(bus.select_querier(Some("node-2".to_string())).is_none());
    assert!(bus.select_querier(None).is_none());
}

#[test]
fn route_client_message_without_querier_fails() {
    let bus = RouterMessageBus::new();
    match bus.route_client_message(Some("node-9".to_string()), &bus_message("trace-9")) {
        Err(WsError::Connection(text)) => assert_eq!(text, "No querier available for trace_id: trace-9"),
        _ => panic!("expected a connection error"),
    }
    match bus.route_client_message(None, &bus_message("t")) {
        Err(WsError::Connection(text)) => assert_eq!(text, "No querier available for trace_id: t"),
        _ => panic!("expected a connection error"),
    }
}

#[test]
fn route_client_message_picks_the_nodes_querier() {
    let mut bus = RouterMessageBus::new();
    let (tx1, _rx1) = mpsc::channel(4);
    let (tx2, _rx2) = mpsc::channel(4);
    bus.register_querier(QuerierId::new("q1".to_string()), tx1.clone());
    bus.register_querier(QuerierId::new("q2".to_string()), tx2.clone());
    let chosen = bus.route_client_message(Some("q2".to_string()), &bus_message("t")).ok().unwrap();
    assert!(chosen.same_channel(&tx2));
    assert!(!chosen.same_channel(&tx1));
}

#[test]
fn route_querier_message_reaches_registered_client() {
    let mut bus = RouterMessageBus::new();
    let (tx, mut rx) = mpsc::channel(4);
    assert!(bus.route_querier_message(&ClientId::new("c1".to_string())).is_none());
    bus.register_client(ClientId::new("c1".to_string()), tx);
    let sender = bus.route_querier_message(&ClientId::new("c1".to_string())).expect("registered");
    sender.try_send(bus_message("to-client")).ok().unwrap();
    assert_eq!(rx.try_recv().ok().unwrap().trace_id, "to-client");
    assert!(bus.route_querier_message(&ClientId::new("c2".to_string())).is_none());
}

#[test]
fn client_and_querier_registrations_are_apart() {
    let mut bus = RouterMessageBus::new();
    let (tx, _rx) = mpsc::channel(4);
    bus.register_querier(QuerierId::new("same".to_string()), tx);
    assert!(bus.route_querier_message(&ClientId::new("same".to_string())).is_none());
}

#[test]
fn health_monitor_times_out_after_the_timeout() {
    let mut monitor = HealthMonitor::new(Duration::from_secs(5), Duration::from_secs(30));
    monitor.record_activity(1_000_000);
    assert!(!monitor.is_timed_out(1_000_000));
    assert!(!monitor.is_timed_out(31_000_000));
    assert!(monitor.is_timed_out(31_000_001));
    assert_eq!(monitor.check_interval(), Duration::from_secs(5));
    assert_eq!(monitor.connection_timeout(), Duration::from_secs(30));
}

#[test]
fn health_monitor_counts_clock_going_back_as_timeout() {
    let mut monitor = HealthMonitor::new(Duration::from_secs(5), Duration::from_secs(30));
    monitor.record_activity(2_000_000);
    assert!(monitor.is_timed_out(1_999_999));
}

#[test]
fn health_monitor_sub_microsecond_timeout() {
    let mut monitor = HealthMonitor::new(Duration::from_secs(1), Duration::from_nanos(1_500));
    monitor.record_activity(0);
    assert!(!monitor.is_timed_out(1));
    assert!(monitor.is_timed_out(2));
}

#[test]
fn health_monitor_fresh_activity_is_not_timed_out() {
    let mut monitor = HealthMonitor::new(Duration::from_secs(5), Duration::from_secs(30));
    monitor.update_activity();
    assert_eq!(monitor.check_timeout(), Some(false));
}

#[test]
fn next_action_follows_the_connection_kind() {
    assert!(matches!(
        next_action(ConnectionKind::Router, false, StreamEvent::Text("x".to_string())),
        StreamAction::Respond(ref t) if t == "x"
    ));
    assert!(matches!(
        next_action(ConnectionKind::Client, true, StreamEvent::Text("y".to_string())),
        StreamAction::Route(ref t) if t == "y"
    ));
    assert!(matches!(
        next_action(ConnectionKind::Querier, false, StreamEvent::Text("z".to_string())),
        StreamAction::Parse(ref t) if t == "z"
    ));
    assert!(matches!(
        next_action(ConnectionKind::Client, false, StreamEvent::Text("not json".to_string())),
        StreamAction::Parse(ref t) if t == "not json"
    ));
    assert!(matches!(next_action(ConnectionKind::Querier, true, StreamEvent::Close), StreamAction::Stop));
    assert!(matches!(next_action(ConnectionKind::Router, true, StreamEvent::OtherFrame), StreamAction::Continue));
    assert!(matches!(
        next_action(ConnectionKind::Client, true, StreamEvent::Outbound(bus_message("o"))),
        StreamAction::Send(ref m) if m.trace_id == "o"
    ));
    assert!(matches!(next_action(ConnectionKind::Client, false, StreamEvent::Exhausted), StreamAction::Stop));
}

#[test]
fn stream_slot_connect_take_disconnect() {
    let mut slot: StreamSlot<u32> = StreamSlot::new();
    assert!(!slot.is_connected());
    assert_eq!(slot.take_for_run(), Err(ConnectionError::NoStream));
    slot.connect(7);
    assert!(slot.is_connected());
    assert_eq!(slot.take_for_run(), Ok(7));
    assert!(!slot.is_connected());
    slot.connect(8);
    assert_eq!(slot.disconnect(), Some(8));
    assert_eq!(slot.disconnect(), None);
    assert_eq!(ConnectionError::NoStream.message(), "No WebSocket stream");
}

#[test]
fn micros_since_epoch_rounds_down_and_signs() {
    assert_eq!(micros_since_epoch(Ok(Duration::from_micros(5))), 5);
    assert_eq!(micros_since_epoch(Ok(Duration::from_nanos(5_999))), 5);
    assert_eq!(micros_since_epoch(Err(Duration::from_micros(3))), -3);
    assert_eq!(micros_since_epoch(Err(Duration::from_nanos(1_500))), -2);
    assert_eq!(micros_since_epoch(Ok(Duration::from_secs(1_700_000_000))), 1_700_000_000_000_000);
    assert_eq!(micros_since_epoch(Ok(Duration::MAX)), i64::MAX);
    assert_eq!(micros_since_epoch(Err(Duration::MAX)), i64::MIN);
}

#[test]
fn querier_monitor_settings() {
    let monitor = HealthMonitor::for_querier();
    assert_eq!(monitor.check_interval(), Duration::from_secs(5));
    assert_eq!(monitor.connection_timeout(), Duration::from_secs(30));
}

#[test]
fn timeout_at_reports_overflow_and_timeouts() {
    let mut monitor = HealthMonitor::for_querier();
    monitor.record_activity(10_000_000);
    assert_eq!(monitor.timeout_at(10_000_000), Some(false));
    assert_eq!(monitor.timeout_at(40_000_001), Some(true));
    monitor.record_activity(i64::MIN);
    assert_eq!(monitor.timeout_at(1), None);
}

#[test]
fn start_run_without_stream_fails_before_the_bus() {
    let mut slot: StreamSlot<u32> = StreamSlot::new();
    assert!(matches!(slot.start_run(true), Err(ConnectionError::NoStream)));
    slot.connect(3);
    match slot.start_run(true) {
        Ok(start) => {
            assert_eq!(start.stream, 3);
            assert!(start.register_with_bus);
        }
        Err(_) => panic!("a stream was held"),
    }
    assert!(!slot.is_connected());
    slot.connect(4);
    match slot.start_run(false) {
        Ok(start) => assert!(!start.register_with_bus),
        Err(_) => panic!("a stream was held"),
    }
}

#[test]
fn same_trace_id_same_route_on_concrete_values() {
    let mut bus = RouterMessageBus::new();
    let (tx, _rx) = mpsc::channel(4);
    bus.register_querier(QuerierId::new("n".to_string()), tx);
    let m1 = BusMessage { trace_id: "t".to_string(), event: Event::End };
    let m2 = BusMessage { trace_id: "t".to_string(), event: Event::Benchmark(BenchmarkRequest { id: "z".to_string() }) };
    let a = bus.route_client_message(Some("n".to_string()), &m1).ok().unwrap();
    let b = bus.route_client_message(Some("n".to_string()), &m2).ok().unwrap();
    assert!(a.same_channel(&b));
}

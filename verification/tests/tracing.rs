use std::io::Write;
use std::time::Instant;

use zero2prod2::services::{completion_log, LogLevel, TraceLayer};
use zero2prod2::text::decimal_string;
use zero2prod2::tracing::TimingLayer;

#[test]
fn decimal_string_matches_display() {
    for n in [0u128, 9, 10, 99, 100, 12345, u64::MAX as u128, u128::MAX] {
        assert_eq!(decimal_string(n), n.to_string());
    }
}

#[test]
fn server_errors_and_failures_are_logged_as_errors() {
    let log = completion_log(Some(503), 42);
    assert_eq!(log.level, LogLevel::Error);
    assert_eq!(log.message, "response failed");
    assert_eq!(log.latency, "42μs elapsed");
    let log = completion_log(None, 7);
    assert_eq!(log.level, LogLevel::Error);
    assert_eq!(log.message, "response failed");
}

#[test]
fn other_responses_are_logged_as_finished() {
    for code in [200u16, 404, 499, 600] {
        let log = completion_log(Some(code), 1000);
        assert_eq!(log.level, LogLevel::Info);
        assert_eq!(log.message, "finished processing request");
        assert_eq!(log.latency, "1000μs elapsed");
    }
}

#[test]
fn the_trace_layer_keeps_the_inner_service() {
    let t = TraceLayer.layer(17u8);
    assert_eq!(t.inner, 17);
}

#[test]
fn a_child_span_records_its_parent() {
    let now = Instant::now();
    let mut layer = TimingLayer::new(Vec::<u8>::new());
    layer.on_new_span(1, "request", None, 0, now);
    layer.on_new_span(2, "parse name", Some(1), 1, now);
    let child = layer.timer(2);
    assert_eq!(child.name, "parse name");
    assert_eq!(child.unique_id, 1);
    assert_eq!(child.parent_unique_id, Some(0));
    assert_eq!(child.parent_start, Some(now));
    assert!(layer.has_span(1) && layer.has_span(2) && !layer.has_span(3));
    let root = layer.timer(1);
    assert_eq!(root.parent_unique_id, None);
}

#[test]
fn enter_and_exit_lines_have_the_log_format() {
    let now = Instant::now();
    let mut layer = TimingLayer::new(Vec::<u8>::new());
    layer.on_new_span(1, "request", None, 3, now);
    layer.on_new_span(5, "adding \"new\" subscriber", Some(1), 4, now);
    assert_eq!(
        layer.enter_line(1, 0),
        "{type:enter,name:\"request\",id:3,parent_id:None,elapsed:0}"
    );
    assert_eq!(
        layer.enter_line(5, 250),
        "{type:enter,name:\"adding \\\"new\\\" subscriber\",id:4,parent_id:Some(3),elapsed:250}"
    );
    assert_eq!(
        layer.exit_line(5, 1200),
        "{type:exit,name:\"adding \\\"new\\\" subscriber\",id:4,parent_id:Some(3),elapsed:1200}"
    );
}

#[test]
fn a_span_without_parent_enters_at_zero() {
    let now = Instant::now();
    let mut layer = TimingLayer::new(Vec::<u8>::new());
    layer.on_new_span(1, "request", None, 3, now);
    assert_eq!(
        layer.enter_line(1, 250),
        "{type:enter,name:\"request\",id:3,parent_id:None,elapsed:0}"
    );
}

#[test]
fn a_reused_span_id_gets_a_fresh_timer() {
    let now = Instant::now();
    let mut layer = TimingLayer::new(Vec::<u8>::new());
    layer.on_new_span(1, "first", None, 0, now);
    layer.on_new_span(1, "second", None, 1, now);
    assert_eq!(layer.timer(1).name, "second");
    assert_eq!(layer.timer(1).unique_id, 1);
}

#[test]
fn lines_go_to_the_writer() {
    let now = Instant::now();
    let mut layer = TimingLayer::new(Vec::<u8>::new());
    layer.on_new_span(1, "request", None, 0, now);
    let line = layer.exit_line(1, 5);
    layer.writer_mut().write_all(format!("{line}\n").as_bytes()).unwrap();
    assert_eq!(
        String::from_utf8(layer.writer_mut().clone()).unwrap(),
        "{type:exit,name:\"request\",id:0,parent_id:None,elapsed:5}\n"
    );
}

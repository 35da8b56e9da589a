use telemetry_lab::config::{resolve_endpoint, Service, EXPORT_TIMEOUT_SECS};
use telemetry_lab::decimal::{i64_to_decimal, u64_to_decimal};
use telemetry_lab::logline::{format_file_and_line, startup_banner};
use telemetry_lab::metrics::{
    connection_tick_op, draw_connection_tick_op, scrape_open_ops, startup_connection_op, Handler,
    Instrument, InstrumentKind, Labels, MetricOp,
};
use telemetry_lab::scrape::{
    metrics_page, route, scrape_close_ops, static_page, Method, Page, PageBody, NOT_FOUND, OK,
};
use telemetry_lab::text::str_equal;
use telemetry_lab::dice::Die;

#[test]
fn decimal_spellings() {
    assert_eq!(u64_to_decimal(0), "0");
    assert_eq!(u64_to_decimal(7), "7");
    assert_eq!(u64_to_decimal(1234567890), "1234567890");
    assert_eq!(u64_to_decimal(u64::MAX), u64::MAX.to_string());
    assert_eq!(i64_to_decimal(-1), "-1");
    assert_eq!(i64_to_decimal(i64::MIN), "-9223372036854775808");
    assert_eq!(i64_to_decimal(i64::MAX), "9223372036854775807");
}

#[test]
fn routes() {
    assert_eq!(route(Method::Get, "/metrics"), Page::Metrics);
    assert_eq!(route(Method::Get, "/"), Page::Root);
    assert_eq!(route(Method::Get, "/metric"), Page::Missing);
    assert_eq!(route(Method::Get, "/metrics/"), Page::Missing);
    assert_eq!(route(Method::Get, ""), Page::Missing);
    assert_eq!(route(Method::Other, "/metrics"), Page::Missing);
    assert_eq!(route(Method::Other, "/"), Page::Missing);
}

#[test]
fn fixed_pages() {
    let r = static_page(Page::Root);
    assert_eq!(r.status, OK);
    assert!(r.content_type.is_none());
    assert!(matches!(r.body, PageBody::Text(ref t) if t == "Hello World"));
    let r = static_page(Page::Missing);
    assert_eq!(r.status, NOT_FOUND);
    assert_eq!(r.status, 404);
    assert!(matches!(r.body, PageBody::Text(ref t) if t == "Missing Page"));
    assert!(scrape_close_ops(&r).is_empty());
}

#[test]
fn metrics_page_records_its_size() {
    let r = metrics_page(b"# HELP x\n".to_vec());
    assert_eq!(r.status, 200);
    assert_eq!(r.content_type.as_deref(), Some("text/plain; version=0.0.4"));
    let ops = scrape_close_ops(&r);
    assert_eq!(
        ops,
        vec![MetricOp::Record {
            instrument: Instrument::HttpResponseSize,
            value: 9,
            labels: Labels::Handler(Handler::All)
        }]
    );
    assert_eq!(
        scrape_open_ops(),
        vec![MetricOp::Add {
            instrument: Instrument::HttpRequests,
            amount: 1,
            labels: Labels::Handler(Handler::All)
        }]
    );
}

#[test]
fn connection_ticks() {
    assert_eq!(
        startup_connection_op(),
        MetricOp::Add { instrument: Instrument::TotalConnections, amount: 1, labels: Labels::Example }
    );
    assert_eq!(
        connection_tick_op(23),
        MetricOp::Add { instrument: Instrument::TotalConnections, amount: 3, labels: Labels::Example }
    );
    assert_eq!(
        connection_tick_op(u64::MAX),
        MetricOp::Add { instrument: Instrument::TotalConnections, amount: 5, labels: Labels::Example }
    );
    for _ in 0..100 {
        match draw_connection_tick_op() {
            MetricOp::Add { instrument: Instrument::TotalConnections, amount, labels: Labels::Example } => {
                assert!(amount < 10)
            }
            other => panic!("unexpected {:?}", other),
        }
    }
}

#[test]
fn instrument_descriptions() {
    assert_eq!(Instrument::RollCalls(Die::D6).name(), "roll_d6_calls");
    assert_eq!(Instrument::RollCalls(Die::D8).name(), "roll_d8_calls");
    assert_eq!(Instrument::ActiveRequests.name(), "active_requests");
    assert_eq!(Instrument::ActiveRequests.kind(), InstrumentKind::UpDownCounter);
    assert_eq!(Instrument::HttpResponseSize.kind(), InstrumentKind::Histogram);
    assert_eq!(Instrument::HttpResponseSize.unit(), Some("By"));
    assert_eq!(Instrument::HttpRequests.unit(), None);
    assert_eq!(Instrument::HttpRequests.name(), "http_requests_total");
    assert_eq!(
        Instrument::RollCalls(Die::D8).description(),
        "Number of times the roll_d8 endpoint was called"
    );
    let pairs = Labels::Handler(Handler::RollD8).pairs();
    assert_eq!(pairs.len(), 1);
    assert_eq!(pairs[0].key, "handler");
    assert_eq!(pairs[0].value, "roll_d8");
    assert!(Labels::Empty.pairs().is_empty());
    let pairs = Labels::Example.pairs();
    assert_eq!((pairs[0].key.as_str(), pairs[0].value.as_str()), ("example_key", "example_value"));
}

#[test]
fn endpoints_and_resources() {
    assert_eq!(resolve_endpoint(None), "http://localhost:4317");
    assert_eq!(resolve_endpoint(Some("http://collector:4317".to_string())), "http://collector:4317");
    assert_eq!(Service::OtlpLogs.endpoint_variable(), "OTLP_LOGGING_BACKEND_URL");
    assert_eq!(Service::DiceMetrics.endpoint_variable(), "OTLP_METRICS_BACKEND_URL");
    assert_eq!(EXPORT_TIMEOUT_SECS, 3);
    let logs: Vec<(String, String)> =
        Service::OtlpLogs.resource_attributes().into_iter().map(|a| (a.key, a.value)).collect();
    assert_eq!(
        logs,
        vec![
            ("service.name".to_string(), "api-service".to_string()),
            ("service.version".to_string(), "0.1.0".to_string()),
            ("k8s.namespace.name".to_string(), "microservice-simulator".to_string()),
        ]
    );
    let dice: Vec<(String, String)> =
        Service::DiceMetrics.resource_attributes().into_iter().map(|a| (a.key, a.value)).collect();
    assert_eq!(dice[2], ("service.namespace".to_string(), "23_metrics_multi_thread_otlp_grpc".to_string()));
    let metrics: Vec<(String, String)> =
        Service::OtlpMetrics.resource_attributes().into_iter().map(|a| (a.key, a.value)).collect();
    assert_eq!(metrics[2], ("service.namespace".to_string(), "microservice-simulator".to_string()));
}

#[test]
fn log_lines() {
    assert_eq!(startup_banner("demo", "0.1.0"), "Name: demo Version: 0.1.0");
    assert_eq!(
        format_file_and_line("src/main.rs", 33, "Hello, world!"),
        r#"{ "filename": "src/main.rs", "line": 33, "data": "Hello, world!" }"#
    );
    assert_eq!(
        format_file_and_line("a", 0, ""),
        r#"{ "filename": "a", "line": 0, "data": "" }"#
    );
}

#[test]
fn string_equality() {
    assert!(str_equal("", ""));
    assert!(str_equal("héllo", "héllo"));
    assert!(!str_equal("abc", "abd"));
    assert!(!str_equal("abc", "ab"));
}

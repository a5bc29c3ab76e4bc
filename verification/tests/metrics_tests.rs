use healthmon::metrics::{gather_metrics, MetricsSink};

fn text_of(sink: &MetricsSink) -> String {
    String::from_utf8(gather_metrics(sink)).unwrap()
}

#[test]
fn an_empty_sink_exposes_nothing() {
    let sink = MetricsSink::new();
    assert_eq!(gather_metrics(&sink), Vec::<u8>::new());
}

#[test]
fn one_up_check_writes_all_three_series() {
    let mut sink = MetricsSink::new();
    sink.record_check(&String::from("http://x"), &String::from("A"), true, 42);
    let expected = "service_status{service_health_checkurl=\"http://x\",service_name=\"A\"} 1\nservice_latency_seconds{service_health_checkurl=\"http://x\",service_name=\"A\"} 0.042\nservice_checks_total{service_health_checkurl=\"http://x\",service_name=\"A\",result=\"UP\"} 1\n";
    assert_eq!(text_of(&sink), expected);
}

#[test]
fn every_check_overwrites_gauges_and_grows_one_counter() {
    let mut sink = MetricsSink::new();
    let url = String::from("http://x");
    let name = String::from("A");
    sink.record_check(&url, &name, true, 42);
    sink.record_check(&url, &name, true, 1234);
    sink.record_check(&url, &name, false, 10000);
    let expected = "service_status{service_health_checkurl=\"http://x\",service_name=\"A\"} 0\nservice_latency_seconds{service_health_checkurl=\"http://x\",service_name=\"A\"} 10.000\nservice_checks_total{service_health_checkurl=\"http://x\",service_name=\"A\",result=\"UP\"} 2\nservice_checks_total{service_health_checkurl=\"http://x\",service_name=\"A\",result=\"DOWN\"} 1\n";
    assert_eq!(text_of(&sink), expected);
}

#[test]
fn services_are_kept_apart_by_their_labels() {
    let mut sink = MetricsSink::new();
    sink.record_check(&String::from("http://a"), &String::from("A"), true, 1);
    sink.record_check(&String::from("http://b"), &String::from("B"), false, 2);
    sink.record_check(&String::from("http://a"), &String::from("A"), true, 3);
    let text = text_of(&sink);
    assert!(text.contains("service_name=\"A\"} 1\n"));
    assert!(text.contains("service_name=\"B\"} 0\n"));
    assert!(text.contains("service_name=\"A\"} 0.003\n"));
    assert!(text.contains("service_name=\"A\",result=\"UP\"} 2\n"));
    assert!(text.contains("service_name=\"B\",result=\"DOWN\"} 1\n"));
    // same-name gauge lines appear once per label pair
    assert_eq!(text.matches("service_status{").count(), 2);
    assert_eq!(text.matches("service_latency_seconds{").count(), 2);
}

#[test]
fn a_result_series_appears_only_once_incremented() {
    let mut sink = MetricsSink::new();
    sink.record_check(&String::from("http://a"), &String::from("A"), true, 1);
    let text = text_of(&sink);
    assert!(text.contains("result=\"UP\"} 1\n"));
    assert!(!text.contains("result=\"DOWN\""));
}

#[test]
fn label_values_are_escaped() {
    let mut sink = MetricsSink::new();
    sink.record_check(
        &String::from("http://x/\"q\"?a=b\\c"),
        &String::from("na\nme"),
        true,
        1,
    );
    let text = text_of(&sink);
    assert!(text.contains("service_health_checkurl=\"http://x/\\\"q\\\"?a=b\\\\c\""));
    assert!(text.contains("service_name=\"na\\nme\""));
}

#[test]
fn latency_is_written_in_seconds_with_three_decimals() {
    let mut sink = MetricsSink::new();
    let url = String::from("u");
    let name = String::from("n");
    sink.record_check(&url, &name, true, 0);
    assert!(text_of(&sink).contains("service_latency_seconds{service_health_checkurl=\"u\",service_name=\"n\"} 0.000\n"));
    sink.record_check(&url, &name, true, 7);
    assert!(text_of(&sink).contains("\"} 0.007\n"));
    sink.record_check(&url, &name, true, 70);
    assert!(text_of(&sink).contains("\"} 0.070\n"));
    sink.record_check(&url, &name, true, 700);
    assert!(text_of(&sink).contains("\"} 0.700\n"));
    sink.record_check(&url, &name, true, 12345);
    assert!(text_of(&sink).contains("\"} 12.345\n"));
}

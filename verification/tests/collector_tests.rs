use healthmon::collector::{
    classify_probe, normalize_interval, observe_check, observe_fleet, CollectorManager,
    FleetObservation, LoopAction, LoopPhase, PollLoop, DEFAULT_INTERVAL_SECS, PROBE_TIMEOUT_SECS,
};
use healthmon::metrics::{gather_metrics, MetricsSink};
use healthmon::models::{Service, StoreError};

fn service(id: i64, name: &str, url: &str, interval: i64) -> Service {
    Service {
        id,
        service_name: String::from(name),
        healthcheck_url: String::from(url),
        healthcheck_duration_seconds: interval,
        created_at: 0,
        updated_at: 0,
    }
}

fn exposition(sink: &MetricsSink) -> String {
    String::from_utf8(gather_metrics(sink)).unwrap()
}

#[test]
fn non_positive_intervals_use_the_default() {
    assert_eq!(normalize_interval(0), 30);
    assert_eq!(normalize_interval(-1), 30);
    assert_eq!(normalize_interval(-100), 30);
    assert_eq!(DEFAULT_INTERVAL_SECS, 30);
}

#[test]
fn positive_intervals_are_kept() {
    assert_eq!(normalize_interval(1), 1);
    assert_eq!(normalize_interval(30), 30);
    assert_eq!(normalize_interval(3600), 3600);
}

#[test]
fn probe_timeout_is_ten_seconds() {
    assert_eq!(PROBE_TIMEOUT_SECS, 10);
}

#[test]
fn classification_is_up_exactly_on_success_status() {
    assert!(classify_probe(Some(200)));
    assert!(classify_probe(Some(204)));
    assert!(classify_probe(Some(299)));
    assert!(!classify_probe(Some(199)));
    assert!(!classify_probe(Some(300)));
    assert!(!classify_probe(Some(404)));
    assert!(!classify_probe(Some(500)));
    assert!(!classify_probe(None));
}

#[test]
fn a_new_supervisor_is_stopped_and_empty() {
    let m = CollectorManager::new();
    assert!(!m.is_running());
    assert_eq!(m.active_loops().len(), 0);
}

#[test]
fn start_spawns_one_loop_per_service() {
    let mut m = CollectorManager::new();
    m.start(Ok(vec![
        service(1, "A", "http://a", 5),
        service(2, "B", "http://b", 0),
    ]));
    assert!(m.is_running());
    let loops = m.active_loops();
    assert_eq!(loops.len(), 2);
    assert_eq!(loops[0].service.id, 1);
    assert_eq!(loops[0].interval_secs, 5);
    assert_eq!(loops[1].service.id, 2);
    assert_eq!(loops[1].interval_secs, 30);
    assert!(matches!(loops[0].phase, LoopPhase::Ready));
    assert!(matches!(loops[1].phase, LoopPhase::Ready));
}

#[test]
fn at_most_one_loop_per_service_across_restarts() {
    let mut m = CollectorManager::new();
    for _ in 0..3 {
        m.start(Ok(vec![
            service(1, "A", "http://a", 5),
            service(2, "B", "http://b", 5),
        ]));
        let loops = m.active_loops();
        assert_eq!(loops.len(), 2);
        for i in 0..loops.len() {
            for j in 0..loops.len() {
                if i != j {
                    assert_ne!(loops[i].service.id, loops[j].service.id);
                }
            }
        }
    }
}

#[test]
fn stop_leaves_no_loops() {
    let mut m = CollectorManager::new();
    m.start(Ok(vec![service(1, "A", "http://a", 5)]));
    assert!(m.is_running());
    m.stop();
    assert!(!m.is_running());
    assert_eq!(m.active_loops().len(), 0);
}

#[test]
fn restart_fully_replaces_the_fleet() {
    let mut m = CollectorManager::new();
    m.start(Ok(vec![
        service(1, "A", "http://a", 5),
        service(2, "B", "http://b", 5),
    ]));
    m.restart(Ok(vec![
        service(2, "B", "http://b", 5),
        service(3, "C", "http://c", 5),
    ]));
    assert!(m.is_running());
    let ids: Vec<i64> = m.active_loops().iter().map(|l| l.service.id).collect();
    assert_eq!(ids, vec![2, 3]);
    assert!(!ids.contains(&1));
}

#[test]
fn directory_failure_starts_with_zero_loops() {
    let mut m = CollectorManager::new();
    m.start(Err(StoreError));
    assert!(m.is_running());
    assert_eq!(m.active_loops().len(), 0);
}

#[test]
fn a_loop_probes_records_then_sleeps_its_interval() {
    let mut l = PollLoop {
        service: service(1, "A", "http://a", 2),
        interval_secs: 2,
        phase: LoopPhase::Ready,
    };
    let mut sink = MetricsSink::new();
    assert_eq!(l.step(true), LoopAction::ProbeNow);
    assert!(matches!(l.phase, LoopPhase::Probing));
    l.complete_check(&mut sink, Some(200), 42);
    assert!(matches!(l.phase, LoopPhase::Sleeping { slept: 0 }));
    assert_eq!(l.step(true), LoopAction::SleepSlice);
    assert_eq!(l.step(true), LoopAction::SleepSlice);
    assert_eq!(l.step(true), LoopAction::Continue);
    assert!(matches!(l.phase, LoopPhase::Ready));
    assert_eq!(l.step(true), LoopAction::ProbeNow);
    let text = exposition(&sink);
    assert!(text.contains("service_status{service_health_checkurl=\"http://a\",service_name=\"A\"} 1\n"));
}

#[test]
fn a_stopped_loop_exits_at_the_loop_top() {
    let mut l = PollLoop {
        service: service(1, "A", "http://a", 2),
        interval_secs: 2,
        phase: LoopPhase::Ready,
    };
    assert_eq!(l.step(false), LoopAction::Exit);
    assert!(matches!(l.phase, LoopPhase::Exited));
}

#[test]
fn a_stop_mid_sleep_exits_within_one_slice_with_no_more_writes() {
    let mut l = PollLoop {
        service: service(1, "A", "http://a", 30),
        interval_secs: 30,
        phase: LoopPhase::Ready,
    };
    let mut sink = MetricsSink::new();
    l.step(true);
    l.complete_check(&mut sink, Some(200), 5);
    assert_eq!(l.step(true), LoopAction::SleepSlice);
    let before = gather_metrics(&sink);
    // the running flag goes down mid-sleep: the very next step exits
    assert_eq!(l.step(false), LoopAction::Exit);
    assert!(matches!(l.phase, LoopPhase::Exited));
    let after = gather_metrics(&sink);
    assert_eq!(before, after);
}

#[test]
fn one_service_reachable_within_one_cycle() {
    // one service, reachable target: after the first check the status gauge
    // reads 1 and the UP counter reads 1
    let mut m = CollectorManager::new();
    m.start(Ok(vec![service(
        1,
        "Google",
        "https://www.google.com",
        30,
    )]));
    assert_eq!(m.active_loops().len(), 1);
    let mut l = PollLoop {
        service: service(1, "Google", "https://www.google.com", 30),
        interval_secs: m.active_loops()[0].interval_secs,
        phase: LoopPhase::Ready,
    };
    let mut sink = MetricsSink::new();
    assert_eq!(l.step(true), LoopAction::ProbeNow);
    l.complete_check(&mut sink, Some(200), 120);
    let text = exposition(&sink);
    assert!(text.contains(
        "service_status{service_health_checkurl=\"https://www.google.com\",service_name=\"Google\"} 1\n"
    ));
    assert!(text.contains(
        "service_checks_total{service_health_checkurl=\"https://www.google.com\",service_name=\"Google\",result=\"UP\"} 1\n"
    ));
}

#[test]
fn observe_check_reports_and_records() {
    let mut sink = MetricsSink::new();
    let s = service(7, "S", "http://s", 10);
    let r = observe_check(&mut sink, &s, Some(503), 88, 1700000000);
    assert_eq!(r.service_id, 7);
    assert_eq!(r.service_name, "S");
    assert!(!r.up);
    assert_eq!(r.latency_ms, 88);
    assert_eq!(r.checked_at, 1700000000);
    let text = exposition(&sink);
    assert!(text.contains("service_status{service_health_checkurl=\"http://s\",service_name=\"S\"} 0\n"));
    assert!(text.contains("result=\"DOWN\"} 1\n"));
}

#[test]
fn observe_fleet_counts_every_service_once() {
    let mut sink = MetricsSink::new();
    let obs = vec![
        FleetObservation {
            service: service(1, "A", "http://a", 5),
            response_status: Some(200),
            latency_ms: 10,
        },
        FleetObservation {
            service: service(2, "B", "http://b", 5),
            response_status: None,
            latency_ms: 10000,
        },
        FleetObservation {
            service: service(3, "C", "http://c", 5),
            response_status: Some(302),
            latency_ms: 7,
        },
    ];
    let total = observe_fleet(&mut sink, &obs);
    assert_eq!(total, 3);
    let text = exposition(&sink);
    assert!(text.contains("service_name=\"A\"} 1\n"));
    assert!(text.contains("service_name=\"B\"} 0\n"));
    assert!(text.contains("service_name=\"C\"} 0\n"));
}

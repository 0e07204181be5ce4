use calc_interceptor::classified::ClassifiedError;
use calc_interceptor::errors::{classify, ErrorKind, Severity};
use calc_interceptor::middleware::{
    Disposition, HttpResponse, Middleware, MiddlewareService, Outcome, TransportError,
};
use calc_interceptor::middleware::LogLevel;
use calc_interceptor::telemetry::{
    event_accepted, MetadataEntry, MetadataKey, TelemetryEvent, TelemetrySink,
};

fn service() -> MiddlewareService {
    Middleware.new_transform()
}

#[test]
fn classify_is_total_and_exact() {
    assert_eq!(
        classify(ErrorKind::DivideByZero),
        (400, Severity::ClientFault)
    );
    assert_eq!(
        classify(ErrorKind::MissingConfiguration),
        (500, Severity::ServerFault)
    );
    assert_eq!(
        classify(ErrorKind::UpstreamTransportFailure),
        (500, Severity::ServerFault)
    );
    assert_eq!(classify(ErrorKind::IOFailure), (500, Severity::ServerFault));
}

#[test]
fn classify_is_deterministic() {
    for _ in 0..3 {
        assert_eq!(
            classify(ErrorKind::DivideByZero),
            (400, Severity::ClientFault)
        );
    }
}

#[test]
fn descriptions_are_stable() {
    assert_eq!(ErrorKind::DivideByZero.description(), "cannot divide by zero");
    assert_eq!(
        ErrorKind::MissingConfiguration.description(),
        "required configuration is unset"
    );
    assert_eq!(
        ErrorKind::UpstreamTransportFailure.description(),
        "upstream transport failure"
    );
    assert_eq!(ErrorKind::IOFailure.description(), "input/output failure");
}

#[test]
fn only_error_level_emissions_are_forwarded() {
    assert!(calc_interceptor::middleware::forward_to_telemetry(
        LogLevel::Error
    ));
    assert!(!calc_interceptor::middleware::forward_to_telemetry(
        LogLevel::Info
    ));
}

#[test]
fn classified_error_carries_status_metadata() {
    let c = ClassifiedError::from_kind(ErrorKind::MissingConfiguration);
    assert_eq!(c.status_code, 500);
    assert_eq!(c.cause, ErrorKind::MissingConfiguration);
    assert_eq!(c.reporting_metadata.len(), 1);
    assert_eq!(c.reporting_metadata[0].key, MetadataKey::StatusCode);
    assert_eq!(c.reporting_metadata[0].value, 500);

    let c = ClassifiedError::from_kind(ErrorKind::DivideByZero);
    assert_eq!(c.status_code, 400);
    assert_eq!(c.reporting_metadata[0].value, 400);
}

#[test]
fn filter_drops_exactly_the_4xx_range() {
    for (status, expect_accepted) in
        [(399, true), (400, false), (499, false), (500, true), (503, true)]
    {
        let ev = TelemetryEvent {
            message: String::from("x"),
            extra: vec![MetadataEntry { key: MetadataKey::StatusCode, value: status }],
        };
        assert_eq!(event_accepted(&ev), expect_accepted, "status {status}");
    }
}

#[test]
fn first_status_entry_drives_the_filter() {
    let ev = TelemetryEvent {
        message: String::from("x"),
        extra: vec![
            MetadataEntry { key: MetadataKey::StatusCode, value: 450 },
            MetadataEntry { key: MetadataKey::StatusCode, value: 500 },
        ],
    };
    assert!(!event_accepted(&ev), "the first attached status wins");
}

#[test]
fn filter_accepts_event_without_status() {
    let ev = TelemetryEvent { message: String::from("x"), extra: vec![] };
    assert!(event_accepted(&ev));
}

#[test]
fn sink_records_offers_and_persists_accepted() {
    let mut sink = TelemetrySink::new();
    let dropped = TelemetryEvent {
        message: String::from("client fault"),
        extra: vec![MetadataEntry { key: MetadataKey::StatusCode, value: 404 }],
    };
    let kept = TelemetryEvent {
        message: String::from("server fault"),
        extra: vec![MetadataEntry { key: MetadataKey::StatusCode, value: 500 }],
    };
    assert!(!sink.offer(dropped));
    assert!(sink.offer(kept));
    assert_eq!(sink.offered.len(), 2);
    assert_eq!(sink.persisted.len(), 1);
    assert_eq!(sink.persisted[0].message, "server fault");
}

#[test]
fn success_passes_through_with_zero_offers() {
    let svc = service();
    let mut sink = TelemetrySink::new();
    let resp = HttpResponse {
        status_code: 200,
        body: String::from("{\"res\":3}"),
        embedded_error: None,
    };
    let r = svc.call("/api/v0/add", Outcome::Success(resp), &mut sink);
    assert_eq!(sink.offered.len(), 0);
    assert_eq!(sink.persisted.len(), 0);
    assert!(r.log.is_none());
    match r.disposition {
        Disposition::Responded(resp) => {
            assert_eq!(resp.status_code, 200);
            assert_eq!(resp.body, "{\"res\":3}");
        }
        Disposition::Propagated(_) => panic!("success must pass through"),
    }
}

#[test]
fn success_with_embedded_error_is_logged_and_passed_through() {
    let svc = service();
    let mut sink = TelemetrySink::new();
    let resp = HttpResponse {
        status_code: 400,
        body: String::from("bad request"),
        embedded_error: Some(String::from("cannot divide by zero")),
    };
    let r = svc.call("/api/v0/div", Outcome::Success(resp), &mut sink);
    assert_eq!(sink.offered.len(), 0);
    let log = r.log.expect("embedded error must be logged");
    assert_eq!(log.level, LogLevel::Error);
    assert_eq!(log.path, "/api/v0/div");
    assert_eq!(log.message, "cannot divide by zero");
    match r.disposition {
        Disposition::Responded(resp) => assert_eq!(resp.status_code, 400),
        Disposition::Propagated(_) => panic!("success must pass through"),
    }
}

#[test]
fn division_by_zero_scenario() {
    // Input {x: 10, y: 0} to the division handler: status 400, no telemetry
    // event recorded, one log entry with the request path.
    let body = calc_interceptor::handlers::CalculationRequest { x: 10, y: 0 };
    let failed = calc_interceptor::handlers::handle_div(body);
    assert_eq!(failed, Err(ErrorKind::DivideByZero));

    let svc = service();
    let mut sink = TelemetrySink::new();
    let r = svc.call(
        "/api/v0/div",
        Outcome::HandledFailure(ErrorKind::DivideByZero),
        &mut sink,
    );
    match r.disposition {
        Disposition::Responded(resp) => {
            assert_eq!(resp.status_code, 400);
            assert_eq!(resp.body, "cannot divide by zero");
        }
        Disposition::Propagated(_) => panic!("handled failure must become a response"),
    }
    assert_eq!(sink.offered.len(), 1, "exactly one offer");
    assert_eq!(sink.persisted.len(), 0, "client fault must be suppressed");
    let log = r.log.expect("one log entry per failure");
    assert_eq!(log.level, LogLevel::Error);
    assert_eq!(log.path, "/api/v0/div");
}

#[test]
fn missing_configuration_scenario() {
    // A configuration-missing failure on any handler: status 500, one
    // telemetry event recorded with metadata status_code = 500.
    let svc = service();
    let mut sink = TelemetrySink::new();
    let r = svc.call(
        "/api/v0/mul",
        Outcome::HandledFailure(ErrorKind::MissingConfiguration),
        &mut sink,
    );
    match r.disposition {
        Disposition::Responded(resp) => {
            assert_eq!(resp.status_code, 500);
            assert_eq!(resp.body, "required configuration is unset");
        }
        Disposition::Propagated(_) => panic!("handled failure must become a response"),
    }
    assert_eq!(sink.offered.len(), 1);
    assert_eq!(sink.persisted.len(), 1);
    let ev = &sink.persisted[0];
    assert_eq!(ev.message, "required configuration is unset");
    assert_eq!(ev.extra.len(), 1);
    assert_eq!(ev.extra[0].key, MetadataKey::StatusCode);
    assert_eq!(ev.extra[0].value, 500);
}

#[test]
fn server_faults_each_persist_one_event() {
    let svc = service();
    let mut sink = TelemetrySink::new();
    for kind in [
        ErrorKind::MissingConfiguration,
        ErrorKind::UpstreamTransportFailure,
        ErrorKind::IOFailure,
    ] {
        svc.call("/api/v0/add", Outcome::HandledFailure(kind), &mut sink);
    }
    assert_eq!(sink.offered.len(), 3);
    assert_eq!(sink.persisted.len(), 3);
}

#[test]
fn unhandled_failure_is_propagated_unchanged() {
    let svc = service();
    let mut sink = TelemetrySink::new();
    let err = TransportError { message: String::from("connection reset by peer") };
    let r = svc.call("/api/v0/sub", Outcome::UnhandledFailure(err), &mut sink);
    match r.disposition {
        Disposition::Propagated(err) => {
            assert_eq!(err.message, "connection reset by peer");
        }
        Disposition::Responded(_) => panic!("unhandled failure must escape"),
    }
    assert_eq!(sink.offered.len(), 0);
    assert_eq!(sink.persisted.len(), 0);
    let log = r.log.expect("unhandled failure must be logged");
    assert_eq!(log.level, LogLevel::Error);
    assert_eq!(log.path, "/api/v0/sub");
    assert_eq!(log.message, "Unhandled server error");
}

#[test]
fn hundred_mixed_requests_have_no_cross_request_bleed() {
    // A mix of 50 divide-by-zero and 50 configuration-missing failures:
    // exactly the expected count of each outcome, and no divide-by-zero
    // request ever persists a telemetry event.
    let svc = service();
    let mut sink = TelemetrySink::new();
    let mut outcomes: Vec<Outcome> = Vec::new();
    for i in 0..100 {
        if i % 2 == 0 {
            outcomes.push(Outcome::HandledFailure(ErrorKind::DivideByZero));
        } else {
            outcomes.push(Outcome::HandledFailure(ErrorKind::MissingConfiguration));
        }
    }
    let rs = svc.process_batch("/api/v0/div", outcomes, &mut sink);
    assert_eq!(rs.len(), 100);
    let mut n400 = 0;
    let mut n500 = 0;
    for (i, r) in rs.iter().enumerate() {
        let log = r.log.as_ref().expect("every failure is logged");
        assert_eq!(log.level, LogLevel::Error);
        assert_eq!(log.path, "/api/v0/div");
        match &r.disposition {
            Disposition::Responded(resp) => {
                if i % 2 == 0 {
                    assert_eq!(resp.status_code, 400);
                    n400 += 1;
                } else {
                    assert_eq!(resp.status_code, 500);
                    n500 += 1;
                }
            }
            Disposition::Propagated(_) => panic!("handled failures must respond"),
        }
    }
    assert_eq!(n400, 50);
    assert_eq!(n500, 50);
    assert_eq!(sink.offered.len(), 100, "one offer per handled failure");
    assert_eq!(sink.persisted.len(), 50, "only server faults persist");
    for ev in &sink.persisted {
        assert_eq!(ev.extra[0].value, 500, "no client-fault event may leak in");
    }
}

#[test]
fn batch_counts_ignore_order() {
    let svc = service();

    let mut front = TelemetrySink::new();
    let mut outcomes: Vec<Outcome> = Vec::new();
    for _ in 0..10 {
        outcomes.push(Outcome::HandledFailure(ErrorKind::DivideByZero));
    }
    for _ in 0..10 {
        outcomes.push(Outcome::HandledFailure(ErrorKind::IOFailure));
    }
    svc.process_batch("/api/v0/div", outcomes, &mut front);

    let mut interleaved = TelemetrySink::new();
    let mut outcomes: Vec<Outcome> = Vec::new();
    for _ in 0..10 {
        outcomes.push(Outcome::HandledFailure(ErrorKind::IOFailure));
        outcomes.push(Outcome::HandledFailure(ErrorKind::DivideByZero));
    }
    svc.process_batch("/api/v0/div", outcomes, &mut interleaved);

    assert_eq!(front.offered.len(), interleaved.offered.len());
    assert_eq!(front.persisted.len(), interleaved.persisted.len());
    assert_eq!(front.persisted.len(), 10);
}

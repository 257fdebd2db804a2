use fjordvind::fetch::{fetch_outcome, is_success_status, test_connection, TransportEvent};

#[test]
fn probe_returns_fixed_string() {
    assert_eq!(test_connection(), "Tauri fungerer!");
    assert_eq!(test_connection(), "Tauri fungerer!");
}

#[test]
fn success_response_passes_payload_through() {
    let body = "{\"type\":\"FeatureCollection\",\"features\":[]}";
    let event = TransportEvent::Responded {
        status: 200,
        body: Ok(body.to_string()),
    };
    assert_eq!(fetch_outcome(event), Ok(body.to_string()));
}

#[test]
fn non_success_status_reports_code_and_body() {
    let event = TransportEvent::Responded {
        status: 500,
        body: Ok("server error".to_string()),
    };
    let reason = fetch_outcome(event).unwrap_err();
    assert!(reason.contains("500"));
    assert!(reason.contains("server error"));
    assert_eq!(reason, "HTTP-feil 500: server error");
}

#[test]
fn non_success_status_with_unreadable_body_substitutes_empty() {
    let event = TransportEvent::Responded {
        status: 404,
        body: Err("connection dropped".to_string()),
    };
    assert_eq!(fetch_outcome(event), Err("HTTP-feil 404: ".to_string()));
}

#[test]
fn transport_failure_reports_network_error() {
    let event = TransportEvent::SendFailed {
        cause: "connection refused".to_string(),
    };
    let reason = fetch_outcome(event).unwrap_err();
    assert!(reason.contains("Nettverksfeil"));
    assert_eq!(reason, "Nettverksfeil: connection refused");
}

#[test]
fn client_build_failure_is_reported() {
    let event = TransportEvent::ClientBuildFailed {
        cause: "bad TLS backend".to_string(),
    };
    assert_eq!(
        fetch_outcome(event),
        Err("Kunne ikke opprette HTTP-klient: bad TLS backend".to_string())
    );
}

#[test]
fn unreadable_body_after_success_status_is_reported() {
    let event = TransportEvent::Responded {
        status: 200,
        body: Err("stream closed".to_string()),
    };
    assert_eq!(
        fetch_outcome(event),
        Err("Kunne ikke lese respons: stream closed".to_string())
    );
}

#[test]
fn fetch_is_idempotent_against_unchanging_backend() {
    let payload = "{\"type\":\"FeatureCollection\",\"features\":[]}";
    let event = || TransportEvent::Responded {
        status: 204,
        body: Ok(payload.to_string()),
    };
    let first = fetch_outcome(event());
    let second = fetch_outcome(event());
    assert_eq!(first, Ok(payload.to_string()));
    assert_eq!(first, second);
}

#[test]
fn success_statuses_are_exactly_the_2xx_range() {
    assert!(!is_success_status(199));
    assert!(is_success_status(200));
    assert!(is_success_status(299));
    assert!(!is_success_status(300));
    assert!(!is_success_status(0));
    assert!(!is_success_status(500));
}

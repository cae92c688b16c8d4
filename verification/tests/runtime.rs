use numaflow_core::runtime::{host_url_for, Runtime, RuntimeError, TlsBackend};

#[test]
fn host_url_adds_scheme() {
    assert_eq!(host_url_for("localhost:4327"), "https://localhost:4327");
    assert_eq!(host_url_for("http://x"), "https://http://x");
    assert_eq!(host_url_for(""), "https://");
}

#[test]
fn host_url_keeps_https_address() {
    assert_eq!(host_url_for("https://daemon:4327"), "https://daemon:4327");
    assert_eq!(host_url_for("https://"), "https://");
}

#[test]
fn host_url_is_idempotent() {
    for a in ["a", "https://a", "", "https:/", "HTTPS://a"] {
        let once = host_url_for(a);
        assert_eq!(host_url_for(&once), once);
        assert!(once.starts_with("https://"));
    }
}

#[test]
fn runtime_new_builds_errors_url() {
    let rt = Runtime::new("pipeline-daemon:4327").unwrap();
    assert_eq!(rt.errors_url(), "https://pipeline-daemon:4327/api/v1/runtime/errors");
    let rt = Runtime::new("https://daemon").unwrap();
    assert_eq!(rt.errors_url(), "https://daemon/api/v1/runtime/errors");
}

#[test]
fn runtime_new_client_settings() {
    let rt = Runtime::new("daemon:4327").unwrap();
    assert_eq!(rt.client_timeout_secs(), 1);
    assert!(rt.client_accepts_invalid_certs());
    assert_eq!(rt.client_tls_backend(), TlsBackend::Rustls);
}

#[test]
fn runtime_new_accepts_any_address() {
    for a in ["", "http://h", "https://", "daemon"] {
        let rt = Runtime::new(a).unwrap();
        assert_eq!(rt.errors_url(), format!("{}/api/v1/runtime/errors", host_url_for(a)));
    }
}

fn report(message: &str, details: &[u8]) -> Option<RuntimeError> {
    RuntimeError::from_status(
        message,
        "Some unknown error".to_string(),
        details,
        "2024-01-01T00:00:00+00:00".to_string(),
        "in".to_string(),
        "0".to_string(),
    )
}

#[test]
fn runtime_error_takes_container_name() {
    let e = report("UDF_EXECUTION_ERROR(udf): panicked at main.rs", b"trace").unwrap();
    assert_eq!(e.container_name, "udf");
    assert_eq!(e.message, "UDF_EXECUTION_ERROR(udf): panicked at main.rs");
    assert_eq!(e.code, "Some unknown error");
    assert_eq!(e.details, "trace");
    assert_eq!(e.timestamp, "2024-01-01T00:00:00+00:00");
    assert_eq!(e.mvtx_name, "in");
    assert_eq!(e.replica, "0");
}

#[test]
fn runtime_error_first_parenthesised_group() {
    assert_eq!(report("a(b)c(d)", b"").unwrap().container_name, "b");
    assert_eq!(report("((x))", b"").unwrap().container_name, "(x");
    assert_eq!(report("()", b"").unwrap().container_name, "");
    assert_eq!(report("(a\nb) (c)", b"").unwrap().container_name, "c");
    assert_eq!(report("(é)", b"").unwrap().container_name, "é");
}

#[test]
fn runtime_error_without_container_name() {
    assert!(report("no parentheses", b"").is_none());
    assert!(report("(unclosed", b"").is_none());
    assert!(report("(a\nb)", b"").is_none());
    assert!(report(")(", b"").is_none());
}

#[test]
fn runtime_error_details_are_decoded_lossily() {
    let e = report("(c)", &[0x68, 0x69, 0xff, 0x21]).unwrap();
    assert_eq!(e.details, "hi\u{FFFD}!");
    let e = report("(c)", "ü".as_bytes()).unwrap();
    assert_eq!(e.details, "ü");
}

use blocking_client::error::{Error, ErrorKind};

#[test]
fn new_error_has_no_url() {
    let error = Error::new(ErrorKind::Url, "relative URL without a base".to_string());
    assert_eq!(error.kind, ErrorKind::Url);
    assert_eq!(error.url, None);
    assert_eq!(error.detail, "relative URL without a base".to_string());
}

#[test]
fn builder_error_is_of_kind_builder() {
    let error = Error::builder("no TLS backend".to_string());
    assert_eq!(error, Error { kind: ErrorKind::Builder, url: None, detail: "no TLS backend".to_string() });
    assert!(error.is_builder());
    assert!(!error.is_timeout());
}

#[test]
fn timed_out_error_is_of_kind_timeout() {
    let error = Error::timed_out();
    assert_eq!(error, Error { kind: ErrorKind::Timeout, url: None, detail: "operation timed out".to_string() });
    assert!(error.is_timeout());
}

#[test]
fn with_url_keeps_kind_and_detail() {
    let error = Error::new(ErrorKind::Engine, "reset".to_string()).with_url("http://a.test/".to_string());
    assert_eq!(
        error,
        Error { kind: ErrorKind::Engine, url: Some("http://a.test/".to_string()), detail: "reset".to_string() }
    );
    let moved = error.with_url("http://b.test/".to_string());
    assert_eq!(moved.url, Some("http://b.test/".to_string()));
    assert_eq!(moved.kind, ErrorKind::Engine);
}

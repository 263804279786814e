use blocking_client::builder::ClientBuilder;
use blocking_client::config::{
    Certificate, EngineConfig, Identity, IpAddress, Proxy, ProxyScope, RedirectPolicy, TlsBackend,
    DEFAULT_REDIRECT_LIMIT,
};
use blocking_client::timeout::{Span, Timeout};
use http::header::{HeaderMap, HeaderValue, ACCEPT};

fn proxy(target: &str) -> Proxy {
    Proxy { scope: ProxyScope::All, target: target.to_string() }
}

#[test]
fn new_builder_has_the_defaults() {
    let built = ClientBuilder::new();
    assert_eq!(built.timeout, Timeout(Some(Span::from_secs(30))));
    let config = built.config;
    assert_eq!(config.user_agent, None);
    assert_eq!(config.default_headers, None);
    assert!(!config.cookie_store);
    assert!(config.gzip);
    assert_eq!(DEFAULT_REDIRECT_LIMIT, 10usize);
    assert_eq!(config.redirect, RedirectPolicy::Limited(10));
    assert!(config.referer);
    assert!(config.proxies.is_empty());
    assert!(config.auto_sys_proxy);
    assert_eq!(config.connect_timeout, None);
    assert_eq!(config.max_idle_per_host, usize::MAX);
    assert!(!config.http1_title_case_headers);
    assert!(!config.http2_only);
    assert_eq!(config.http2_initial_stream_window_size, None);
    assert_eq!(config.http2_initial_connection_window_size, None);
    assert!(!config.nodelay);
    assert_eq!(config.local_address, None);
    assert!(config.root_certs.is_empty());
    assert_eq!(config.identity, None);
    assert!(!config.accept_invalid_hostnames);
    assert!(!config.accept_invalid_certs);
    assert_eq!(config.tls, TlsBackend::Unspecified);
}

#[test]
fn timeout_is_set_and_cleared() {
    let built = ClientBuilder::new().timeout(Some(Span::from_millis(100)));
    assert_eq!(built.timeout, Timeout(Some(Span { nanos: 100_000_000 })));
    let built = built.timeout(None);
    assert_eq!(built.timeout, Timeout(None));
    assert!(built.config.gzip);
}

#[test]
fn connect_timeout_none_changes_nothing() {
    let built = ClientBuilder::new().connect_timeout(None);
    assert_eq!(built.config.connect_timeout, None);
    let built = built.connect_timeout(Some(Span::from_secs(3)));
    assert_eq!(built.config.connect_timeout, Some(Span::from_secs(3)));
    let built = built.connect_timeout(None);
    assert_eq!(built.config.connect_timeout, Some(Span::from_secs(3)));
    assert_eq!(built.timeout, Timeout::default());
}

#[test]
fn user_agent_and_default_headers_are_carried() {
    let mut headers = HeaderMap::new();
    headers.insert(ACCEPT, HeaderValue::from_static("text/plain"));
    let built = ClientBuilder::new()
        .user_agent(HeaderValue::from_static("bridge/1.0"))
        .default_headers(headers.clone());
    assert_eq!(built.config.user_agent, Some(HeaderValue::from_static("bridge/1.0")));
    assert_eq!(built.config.default_headers, Some(headers));
}

#[test]
fn switches_are_set_one_by_one() {
    let built = ClientBuilder::new().cookie_store(true);
    assert!(built.config.cookie_store);
    let built = built.cookie_store(false).gzip(false);
    assert!(!built.config.cookie_store);
    assert!(!built.config.gzip);
    let built = built.gzip(true).no_gzip();
    assert!(!built.config.gzip);
    let built = built.referer(false);
    assert!(!built.config.referer);
    let built = built.http1_title_case_headers().http2_prior_knowledge().tcp_nodelay();
    assert!(built.config.http1_title_case_headers);
    assert!(built.config.http2_only);
    assert!(built.config.nodelay);
    let built = built.danger_accept_invalid_hostnames(true).danger_accept_invalid_certs(true);
    assert!(built.config.accept_invalid_hostnames);
    assert!(built.config.accept_invalid_certs);
    let built = built.danger_accept_invalid_hostnames(false);
    assert!(!built.config.accept_invalid_hostnames);
    assert!(built.config.accept_invalid_certs);
    assert!(!built.config.cookie_store);
    assert_eq!(built.timeout, Timeout::default());
}

#[test]
fn values_are_set_one_by_one() {
    let built = ClientBuilder::new()
        .redirect(RedirectPolicy::Never)
        .max_idle_per_host(4)
        .http2_initial_stream_window_size(Some(65_535))
        .http2_initial_connection_window_size(Some(1_048_576))
        .local_address(Some(IpAddress::V4(0x0c04_0108)))
        .identity(Identity { encoded: vec![1u8, 2u8, 3u8] });
    assert_eq!(built.config.redirect, RedirectPolicy::Never);
    assert_eq!(built.config.max_idle_per_host, 4usize);
    assert_eq!(built.config.http2_initial_stream_window_size, Some(65_535u32));
    assert_eq!(built.config.http2_initial_connection_window_size, Some(1_048_576u32));
    assert_eq!(built.config.local_address, Some(IpAddress::V4(0x0c04_0108)));
    assert_eq!(built.config.identity, Some(Identity { encoded: vec![1u8, 2u8, 3u8] }));
    let built = built.http2_initial_stream_window_size(None).local_address(None);
    assert_eq!(built.config.http2_initial_stream_window_size, None);
    assert_eq!(built.config.http2_initial_connection_window_size, Some(1_048_576u32));
    assert_eq!(built.config.local_address, None);
}

#[test]
fn proxies_are_added_in_order_and_cleared() {
    let built = ClientBuilder::new().proxy(proxy("http://one.test")).proxy(proxy("http://two.test"));
    assert_eq!(built.config.proxies, vec![proxy("http://one.test"), proxy("http://two.test")]);
    assert!(!built.config.auto_sys_proxy);
    let built = built.no_proxy();
    assert!(built.config.proxies.is_empty());
    assert!(!built.config.auto_sys_proxy);
}

#[test]
fn no_proxy_alone_turns_the_system_proxy_off() {
    let built = ClientBuilder::new().no_proxy();
    assert!(built.config.proxies.is_empty());
    assert!(!built.config.auto_sys_proxy);
}

#[test]
fn use_sys_proxy_changes_nothing() {
    let built = ClientBuilder::new().proxy(proxy("http://one.test")).use_sys_proxy();
    assert_eq!(built.config.proxies, vec![proxy("http://one.test")]);
    assert!(!built.config.auto_sys_proxy);
    assert!(ClientBuilder::new().use_sys_proxy().config.auto_sys_proxy);
}

#[test]
fn root_certificates_are_added_in_order() {
    let built = ClientBuilder::new()
        .add_root_certificate(Certificate { encoded: vec![0x30u8, 0x82u8] })
        .add_root_certificate(Certificate { encoded: vec![] });
    assert_eq!(
        built.config.root_certs,
        vec![Certificate { encoded: vec![0x30u8, 0x82u8] }, Certificate { encoded: vec![] }]
    );
    assert!(built.config.proxies.is_empty());
    assert!(built.config.auto_sys_proxy);
}

#[test]
fn tls_backend_is_the_last_one_chosen() {
    assert_eq!(ClientBuilder::new().use_native_tls().config.tls, TlsBackend::NativeTls);
    assert_eq!(ClientBuilder::new().use_rustls_tls().config.tls, TlsBackend::Rustls);
    assert_eq!(ClientBuilder::new().use_rustls_tls().use_native_tls().config.tls, TlsBackend::NativeTls);
}

#[test]
fn with_inner_applies_the_change() {
    let built = ClientBuilder::new()
        .timeout(None)
        .with_inner(|config| EngineConfig { max_idle_per_host: 2, referer: false, ..config });
    assert_eq!(built.config.max_idle_per_host, 2usize);
    assert!(!built.config.referer);
    assert!(built.config.gzip);
    assert_eq!(built.timeout, Timeout(None));
}

#[test]
fn into_parts_hands_out_what_was_configured() {
    let (config, timeout) = ClientBuilder::new().tcp_nodelay().timeout(Some(Span::from_secs(1))).into_parts();
    assert!(config.nodelay);
    assert_eq!(timeout, Timeout(Some(Span::from_secs(1))));
    assert!(EngineConfig::new().gzip);
}

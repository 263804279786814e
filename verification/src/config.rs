//! The options that a client hands to its engine. The bridge carries them
//! and reads none of them.

use vstd::prelude::*;
use crate::timeout::Span;

verus! {

/// http's `HeaderMap`, a set of headers: carried to the engine, never
/// looked into.
#[verifier::external_type_specification]
#[verifier::external_body]
#[verifier::reject_recursive_types(T)]
pub struct ExHeaderMap<T>(http::HeaderMap<T>);

/// http's `HeaderValue`, the value of one header: carried to the engine,
/// never looked into.
#[verifier::external_type_specification]
#[verifier::external_body]
pub struct ExHeaderValue(http::HeaderValue);

/// Redirects that a client follows by default before it gives up.
pub const DEFAULT_REDIRECT_LIMIT: usize = 10;

/// What a client does with a redirect.
#[derive(Clone, Copy, Debug, PartialEq, Eq, Structural)]
pub enum RedirectPolicy {
    /// Follow up to this many redirects in a row.
    Limited(usize),
    /// Follow none.
    Never,
}

/// The requests that a proxy is used for.
#[derive(Clone, Copy, Debug, PartialEq, Eq, Structural)]
pub enum ProxyScope {
    Http,
    Https,
    All,
}

/// A proxy, and the requests that go through it.
#[derive(Clone, Debug, PartialEq, Eq)]
pub struct Proxy {
    pub scope: ProxyScope,
    pub target: String,
}

/// A root certificate to trust besides the system's, as encoded bytes.
#[derive(Clone, Debug, PartialEq, Eq)]
pub struct Certificate {
    pub encoded: Vec<u8>,
}

/// The identity that the client shows to a server, as encoded bytes.
#[derive(Clone, Debug, PartialEq, Eq)]
pub struct Identity {
    pub encoded: Vec<u8>,
}

/// The TLS implementation that the engine is to use.
#[derive(Clone, Copy, Debug, PartialEq, Eq, Structural)]
pub enum TlsBackend {
    /// Whichever the engine prefers.
    Unspecified,
    NativeTls,
    Rustls,
}

/// A local address to bind to, by the bits of the address.
#[derive(Clone, Copy, Debug, PartialEq, Eq, Structural)]
pub enum IpAddress {
    V4(u32),
    V6(u128),
}

/// Every option of the engine.
#[derive(Debug)]
pub struct EngineConfig {
    pub user_agent: Option<http::HeaderValue>,
    pub default_headers: Option<http::HeaderMap>,
    pub cookie_store: bool,
    pub gzip: bool,
    pub redirect: RedirectPolicy,
    pub referer: bool,
    pub proxies: Vec<Proxy>,
    pub auto_sys_proxy: bool,
    pub connect_timeout: Option<Span>,
    pub max_idle_per_host: usize,
    pub http1_title_case_headers: bool,
    pub http2_only: bool,
    pub http2_initial_stream_window_size: Option<u32>,
    pub http2_initial_connection_window_size: Option<u32>,
    pub nodelay: bool,
    pub local_address: Option<IpAddress>,
    pub root_certs: Vec<Certificate>,
    pub identity: Option<Identity>,
    pub accept_invalid_hostnames: bool,
    pub accept_invalid_certs: bool,
    pub tls: TlsBackend,
}

impl EngineConfig {
    /// Whether every option has the value that a new client builder gives it.
    pub open spec fn is_initial(&self) -> bool {
        &&& self.user_agent is None
        &&& self.default_headers is None
        &&& !self.cookie_store
        &&& self.gzip
        &&& self.redirect == RedirectPolicy::Limited(DEFAULT_REDIRECT_LIMIT)
        &&& self.referer
        &&& self.proxies@.len() == 0
        &&& self.auto_sys_proxy
        &&& self.connect_timeout is None
        &&& self.max_idle_per_host == usize::MAX
        &&& !self.http1_title_case_headers
        &&& !self.http2_only
        &&& self.http2_initial_stream_window_size is None
        &&& self.http2_initial_connection_window_size is None
        &&& !self.nodelay
        &&& self.local_address is None
        &&& self.root_certs@.len() == 0
        &&& self.identity is None
        &&& !self.accept_invalid_hostnames
        &&& !self.accept_invalid_certs
        &&& self.tls == TlsBackend::Unspecified
    }

    /// The options of a client that was told nothing: no cookie store,
    /// decompression on, up to ten redirects followed, the referer set, the
    /// system's proxy used, certificates and host names verified.
    pub fn new() -> (config: EngineConfig)
        ensures
            config.is_initial(),
    {
        EngineConfig {
            user_agent: None,
            default_headers: None,
            cookie_store: false,
            gzip: true,
            redirect: RedirectPolicy::Limited(DEFAULT_REDIRECT_LIMIT),
            referer: true,
            proxies: Vec::new(),
            auto_sys_proxy: true,
            connect_timeout: None,
            max_idle_per_host: usize::MAX,
            http1_title_case_headers: false,
            http2_only: false,
            http2_initial_stream_window_size: None,
            http2_initial_connection_window_size: None,
            nodelay: false,
            local_address: None,
            root_certs: Vec::new(),
            identity: None,
            accept_invalid_hostnames: false,
            accept_invalid_certs: false,
            tls: TlsBackend::Unspecified,
        }
    }
}

} // verus!

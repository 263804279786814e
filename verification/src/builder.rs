//! The builder of a client: the engine's options, and the bound on the
//! client's blocking waits.

use vstd::prelude::*;
use crate::config::{Certificate, EngineConfig, Identity, IpAddress, Proxy, RedirectPolicy, TlsBackend};
use crate::timeout::{Span, Timeout, default_limit};

verus! {

/// Collects the configuration of a client before the client is built.
#[derive(Debug)]
pub struct ClientBuilder {
    pub config: EngineConfig,
    pub timeout: Timeout,
}

impl ClientBuilder {
    /// A builder with every option at its default and a timeout of thirty
    /// seconds.
    pub fn new() -> (built: ClientBuilder)
        ensures
            built.config.is_initial(),
            built.timeout@ == Some(default_limit()),
    {
        ClientBuilder { config: EngineConfig::new(), timeout: Timeout::default() }
    }

    /// The engine's options and the bound on blocking waits, for whoever
    /// starts the worker.
    pub fn into_parts(self) -> (parts: (EngineConfig, Timeout))
        ensures
            parts.0 == self.config,
            parts.1 == self.timeout,
    {
        (self.config, self.timeout)
    }

    /// Applies `change` to the engine's options and leaves the timeout as
    /// it is.
    pub fn with_inner<F: FnOnce(EngineConfig) -> EngineConfig>(self, change: F) -> (built: ClientBuilder)
        requires
            change.requires((self.config,)),
        ensures
            change.ensures((self.config,), built.config),
            built.timeout == self.timeout,
    {
        ClientBuilder { config: change(self.config), timeout: self.timeout }
    }

    /// Bounds every blocking wait of the client, connecting, writing and
    /// reading taken together. `None` lets the client wait without limit.
    pub fn timeout(self, timeout: Option<Span>) -> (built: ClientBuilder)
        ensures
            built == (ClientBuilder { config: self.config, timeout: Timeout(timeout) }),
    {
        ClientBuilder { config: self.config, timeout: Timeout(timeout) }
    }

    /// Bounds the connect phase alone. `None` changes nothing: a bound set
    /// before stays.
    pub fn connect_timeout(self, timeout: Option<Span>) -> (built: ClientBuilder)
        ensures
            timeout is Some ==> built == (ClientBuilder {
                config: EngineConfig { connect_timeout: timeout, ..self.config },
                timeout: self.timeout,
            }),
            timeout is None ==> built == self,
    {
        match timeout {
            Some(span) => ClientBuilder {
                config: EngineConfig { connect_timeout: Some(span), ..self.config },
                timeout: self.timeout,
            },
            None => self,
        }
    }

    /// Adds a proxy to the list that the client uses, and stops the client
    /// from using the system's proxy by itself.
    pub fn proxy(self, proxy: Proxy) -> (built: ClientBuilder)
        ensures
            built.config.proxies@ == self.config.proxies@.push(proxy),
            built == (ClientBuilder {
                config: EngineConfig { proxies: built.config.proxies, auto_sys_proxy: false, ..self.config },
                timeout: self.timeout,
            }),
    {
        let mut config = self.config;
        config.proxies.push(proxy);
        config.auto_sys_proxy = false;
        ClientBuilder { config, timeout: self.timeout }
    }

    /// Clears the list of proxies, and stops the client from using the
    /// system's proxy by itself.
    pub fn no_proxy(self) -> (built: ClientBuilder)
        ensures
            built.config.proxies@.len() == 0,
            built == (ClientBuilder {
                config: EngineConfig { proxies: built.config.proxies, auto_sys_proxy: false, ..self.config },
                timeout: self.timeout,
            }),
    {
        ClientBuilder {
            config: EngineConfig { proxies: Vec::new(), auto_sys_proxy: false, ..self.config },
            timeout: self.timeout,
        }
    }

    /// Does nothing: the system's proxy is used without being asked for.
    pub fn use_sys_proxy(self) -> (built: ClientBuilder)
        ensures
            built == self,
    {
        self
    }

    /// Adds a root certificate to those that the client trusts. The
    /// system's own stay trusted.
    pub fn add_root_certificate(self, cert: Certificate) -> (built: ClientBuilder)
        ensures
            built.config.root_certs@ == self.config.root_certs@.push(cert),
            built == (ClientBuilder {
                config: EngineConfig { root_certs: built.config.root_certs, ..self.config },
                timeout: self.timeout,
            }),
    {
        let mut config = self.config;
        config.root_certs.push(cert);
        ClientBuilder { config, timeout: self.timeout }
    }

    /// Sets the `User-Agent` header that the client sends.
    pub fn user_agent(self, value: http::HeaderValue) -> (built: ClientBuilder)
        ensures
            built == (ClientBuilder { config: EngineConfig { user_agent: Some(value), ..self.config }, timeout: self.timeout }),
    {
        ClientBuilder { config: EngineConfig { user_agent: Some(value), ..self.config }, timeout: self.timeout }
    }

    /// Sets the headers that every request carries unless it sets its own.
    pub fn default_headers(self, headers: http::HeaderMap) -> (built: ClientBuilder)
        ensures
            built == (ClientBuilder { config: EngineConfig { default_headers: Some(headers), ..self.config }, timeout: self.timeout }),
    {
        ClientBuilder { config: EngineConfig { default_headers: Some(headers), ..self.config }, timeout: self.timeout }
    }

    /// Turns the persistent cookie store on or off. It is off by default.
    pub fn cookie_store(self, enable: bool) -> (built: ClientBuilder)
        ensures
            built == (ClientBuilder { config: EngineConfig { cookie_store: enable, ..self.config }, timeout: self.timeout }),
    {
        ClientBuilder { config: EngineConfig { cookie_store: enable, ..self.config }, timeout: self.timeout }
    }

    /// Turns automatic gzip decompression of response bodies on or off.
    pub fn gzip(self, enable: bool) -> (built: ClientBuilder)
        ensures
            built == (ClientBuilder { config: EngineConfig { gzip: enable, ..self.config }, timeout: self.timeout }),
    {
        ClientBuilder { config: EngineConfig { gzip: enable, ..self.config }, timeout: self.timeout }
    }

    /// Turns automatic gzip decompression of response bodies off.
    pub fn no_gzip(self) -> (built: ClientBuilder)
        ensures
            built == (ClientBuilder { config: EngineConfig { gzip: false, ..self.config }, timeout: self.timeout }),
    {
        ClientBuilder { config: EngineConfig { gzip: false, ..self.config }, timeout: self.timeout }
    }

    /// Sets what the client does with redirects. By default it follows up to ten.
    pub fn redirect(self, policy: RedirectPolicy) -> (built: ClientBuilder)
        ensures
            built == (ClientBuilder { config: EngineConfig { redirect: policy, ..self.config }, timeout: self.timeout }),
    {
        ClientBuilder { config: EngineConfig { redirect: policy, ..self.config }, timeout: self.timeout }
    }

    /// Turns the automatic `Referer` header on or off. It is on by default.
    pub fn referer(self, enable: bool) -> (built: ClientBuilder)
        ensures
            built == (ClientBuilder { config: EngineConfig { referer: enable, ..self.config }, timeout: self.timeout }),
    {
        ClientBuilder { config: EngineConfig { referer: enable, ..self.config }, timeout: self.timeout }
    }

    /// Sets how many idle connections per host the pool keeps.
    pub fn max_idle_per_host(self, max: usize) -> (built: ClientBuilder)
        ensures
            built == (ClientBuilder { config: EngineConfig { max_idle_per_host: max, ..self.config }, timeout: self.timeout }),
    {
        ClientBuilder { config: EngineConfig { max_idle_per_host: max, ..self.config }, timeout: self.timeout }
    }

    /// Makes the client send HTTP/1 header names in title case.
    pub fn http1_title_case_headers(self) -> (built: ClientBuilder)
        ensures
            built == (ClientBuilder { config: EngineConfig { http1_title_case_headers: true, ..self.config }, timeout: self.timeout }),
    {
        ClientBuilder { config: EngineConfig { http1_title_case_headers: true, ..self.config }, timeout: self.timeout }
    }

    /// Makes the client speak HTTP/2 only.
    pub fn http2_prior_knowledge(self) -> (built: ClientBuilder)
        ensures
            built == (ClientBuilder { config: EngineConfig { http2_only: true, ..self.config }, timeout: self.timeout }),
    {
        ClientBuilder { config: EngineConfig { http2_only: true, ..self.config }, timeout: self.timeout }
    }

    /// Sets the initial window of HTTP/2 stream-level flow control; `None` leaves the choice to the engine.
    pub fn http2_initial_stream_window_size(self, size: Option<u32>) -> (built: ClientBuilder)
        ensures
            built == (ClientBuilder { config: EngineConfig { http2_initial_stream_window_size: size, ..self.config }, timeout: self.timeout }),
    {
        ClientBuilder { config: EngineConfig { http2_initial_stream_window_size: size, ..self.config }, timeout: self.timeout }
    }

    /// Sets the initial window of HTTP/2 connection-level flow control; `None` leaves the choice to the engine.
    pub fn http2_initial_connection_window_size(self, size: Option<u32>) -> (built: ClientBuilder)
        ensures
            built == (ClientBuilder { config: EngineConfig { http2_initial_connection_window_size: size, ..self.config }, timeout: self.timeout }),
    {
        ClientBuilder { config: EngineConfig { http2_initial_connection_window_size: size, ..self.config }, timeout: self.timeout }
    }

    /// Makes every socket send without delay.
    pub fn tcp_nodelay(self) -> (built: ClientBuilder)
        ensures
            built == (ClientBuilder { config: EngineConfig { nodelay: true, ..self.config }, timeout: self.timeout }),
    {
        ClientBuilder { config: EngineConfig { nodelay: true, ..self.config }, timeout: self.timeout }
    }

    /// Binds the client's sockets to a local address; `None` leaves the choice to the system.
    pub fn local_address(self, address: Option<IpAddress>) -> (built: ClientBuilder)
        ensures
            built == (ClientBuilder { config: EngineConfig { local_address: address, ..self.config }, timeout: self.timeout }),
    {
        ClientBuilder { config: EngineConfig { local_address: address, ..self.config }, timeout: self.timeout }
    }

    /// Sets the identity that the client shows to a server that asks for one.
    pub fn identity(self, identity: Identity) -> (built: ClientBuilder)
        ensures
            built == (ClientBuilder { config: EngineConfig { identity: Some(identity), ..self.config }, timeout: self.timeout }),
    {
        ClientBuilder { config: EngineConfig { identity: Some(identity), ..self.config }, timeout: self.timeout }
    }

    /// Controls whether a certificate is accepted for a host that it does not name. By default it is not.
    pub fn danger_accept_invalid_hostnames(self, accept_invalid_hostname: bool) -> (built: ClientBuilder)
        ensures
            built == (ClientBuilder { config: EngineConfig { accept_invalid_hostnames: accept_invalid_hostname, ..self.config }, timeout: self.timeout }),
    {
        ClientBuilder { config: EngineConfig { accept_invalid_hostnames: accept_invalid_hostname, ..self.config }, timeout: self.timeout }
    }

    /// Controls whether a certificate is accepted that does not verify. By default it is not.
    pub fn danger_accept_invalid_certs(self, accept_invalid_certs: bool) -> (built: ClientBuilder)
        ensures
            built == (ClientBuilder { config: EngineConfig { accept_invalid_certs: accept_invalid_certs, ..self.config }, timeout: self.timeout }),
    {
        ClientBuilder { config: EngineConfig { accept_invalid_certs: accept_invalid_certs, ..self.config }, timeout: self.timeout }
    }

    /// Makes the engine use the native TLS implementation.
    pub fn use_native_tls(self) -> (built: ClientBuilder)
        ensures
            built == (ClientBuilder { config: EngineConfig { tls: TlsBackend::NativeTls, ..self.config }, timeout: self.timeout }),
    {
        ClientBuilder { config: EngineConfig { tls: TlsBackend::NativeTls, ..self.config }, timeout: self.timeout }
    }

    /// Makes the engine use the rustls TLS implementation.
    pub fn use_rustls_tls(self) -> (built: ClientBuilder)
        ensures
            built == (ClientBuilder { config: EngineConfig { tls: TlsBackend::Rustls, ..self.config }, timeout: self.timeout }),
    {
        ClientBuilder { config: EngineConfig { tls: TlsBackend::Rustls, ..self.config }, timeout: self.timeout }
    }
}

} // verus!

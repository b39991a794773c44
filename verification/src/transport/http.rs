//! An HTTP transport bound to one endpoint, with its authentication,
//! timeouts and retry policy.
use crate::error::{HostError, HostErrorCode};
use crate::transport::auth::AuthConfig;
use crate::transport::authority::{base_url_accepted, base_url_refusal, TransportEndpointAuthority};
use crate::transport::retry::RetryPolicy;
use crate::transport::timeout::{
    TransportTimeoutPolicy, DEFAULT_CONNECT_TIMEOUT_MILLIS, DEFAULT_REQUEST_DEADLINE_MILLIS,
};
use crate::transport::PrivateResolutionPolicy;
use vstd::prelude::*;

verus! {

/// An HTTP transport: requests go only to its endpoint.
#[derive(Clone, Debug, PartialEq, Eq)]
pub struct HttpTransport {
    authority: TransportEndpointAuthority,
    pub auth: AuthConfig,
    pub timeout: TransportTimeoutPolicy,
    pub retry: RetryPolicy,
}

impl HttpTransport {
    pub closed spec fn spec_authority(&self) -> TransportEndpointAuthority {
        self.authority
    }

    pub closed spec fn spec_auth(&self) -> AuthConfig {
        self.auth
    }

    pub closed spec fn spec_timeout(&self) -> TransportTimeoutPolicy {
        self.timeout
    }

    pub closed spec fn spec_retry(&self) -> RetryPolicy {
        self.retry
    }

    /// A transport to the endpoint of `base_url`, without authentication,
    /// with the default timeouts and a single attempt per request.
    pub fn try_new(base_url: &str, private_resolution: PrivateResolutionPolicy) -> (transport: Result<HttpTransport, HostError>)
        ensures
            match transport {
                Ok(t) => base_url_accepted(base_url@) && t.spec_authority().made_from(
                    base_url@,
                    private_resolution,
                ) && t.spec_auth() == AuthConfig::NoAuth && t.spec_timeout().connect_ms()
                    == DEFAULT_CONNECT_TIMEOUT_MILLIS && t.spec_timeout().request_ms()
                    == DEFAULT_REQUEST_DEADLINE_MILLIS && t.spec_retry().attempts == 1,
                Err(e) => !base_url_accepted(base_url@) && e.code == HostErrorCode::InvalidRequest
                    && e.message@ == base_url_refusal(base_url@),
            },
    {
        let authority = match TransportEndpointAuthority::try_new(base_url, private_resolution) {
            Ok(authority) => authority,
            Err(error) => return Err(error),
        };
        Ok(
            HttpTransport {
                authority,
                auth: AuthConfig::NoAuth,
                timeout: TransportTimeoutPolicy::default(),
                retry: RetryPolicy::none(),
            },
        )
    }

    pub fn base_url(&self) -> (base: &str)
        ensures
            base@ == self.spec_authority().base_view(),
    {
        self.authority.base_url()
    }

    pub fn authority(&self) -> (authority: &TransportEndpointAuthority)
        ensures
            *authority == self.spec_authority(),
    {
        &self.authority
    }

    pub fn with_auth(self, auth: AuthConfig) -> (transport: HttpTransport)
        ensures
            transport.spec_auth() == auth,
            transport.spec_timeout() == self.spec_timeout(),
            transport.spec_retry() == self.spec_retry(),
            transport.spec_authority() == self.spec_authority(),
    {
        let mut transport = self;
        transport.auth = auth;
        transport
    }

    pub fn with_timeout(self, timeout: TransportTimeoutPolicy) -> (transport: HttpTransport)
        ensures
            transport.spec_auth() == self.spec_auth(),
            transport.spec_timeout() == timeout,
            transport.spec_retry() == self.spec_retry(),
            transport.spec_authority() == self.spec_authority(),
    {
        let mut transport = self;
        transport.timeout = timeout;
        transport
    }

    pub fn with_retry(self, retry: RetryPolicy) -> (transport: HttpTransport)
        ensures
            transport.spec_auth() == self.spec_auth(),
            transport.spec_timeout() == self.spec_timeout(),
            transport.spec_retry() == retry,
            transport.spec_authority() == self.spec_authority(),
    {
        let mut transport = self;
        transport.retry = retry;
        transport
    }
}

} // verus!

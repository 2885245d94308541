//! What a client of the hub decides before and between its calls: where to
//! connect, when to subscribe again, and what a refused request amounts to.
//!
//! The calls themselves are made outside this library.

use crate::text::{address_of, compose_address};
use crate::types::{OperationStatus, Scheme};
use std::time::Duration;
use tonic::transport::ClientTlsConfig;
use vstd::prelude::*;

verus! {

#[verifier::external_type_specification]
#[verifier::external_body]
pub struct ExClientTlsConfig(ClientTlsConfig);

/// How many times in a row a client subscribes again before it gives up.
pub const MAX_RETRIES: u32 = 5;

/// How many events a client buffers for the reader of a subscription.
pub const SUBSCRIPTION_BUFFER: usize = 256;

/// Seconds between two attempts to subscribe, unless the client was built with
/// a connect timeout of its own.
pub const DEFAULT_CONNECT_TIMEOUT: u64 = 5;

/// The duration of `secs` whole seconds.
pub uninterp spec fn duration_of_secs(secs: u64) -> Duration;

/// `Duration::from_secs`: the duration of `secs` whole seconds.
#[verifier::external_body]
fn duration_from_secs(secs: u64) -> (duration: Duration)
    ensures
        duration == duration_of_secs(secs),
{
    Duration::from_secs(secs)
}

/// Why a client gives up.
#[derive(Clone, Copy, Debug, PartialEq, Eq, Structural)]
pub enum ClientError {
    /// The builder was not told the hub's host.
    HostNotSet,
    /// The builder was not told the hub's port.
    PortNotSet,
    /// The hub answered a register request without success.
    RegisterFailed,
    /// The hub answered an unregister request without success.
    UnregisterFailed,
}

impl ClientError {
    /// The error in words.
    pub open spec fn text(self) -> Seq<char> {
        match self {
            ClientError::HostNotSet => "Server host not set"@,
            ClientError::PortNotSet => "Server port not set"@,
            ClientError::RegisterFailed => "Failed to register service instance"@,
            ClientError::UnregisterFailed => "Failed to unregister service instance"@,
        }
    }

    pub fn message(&self) -> (message: String)
        ensures
            message@ == self.text(),
    {
        match self {
            ClientError::HostNotSet => "Server host not set".to_owned(),
            ClientError::PortNotSet => "Server port not set".to_owned(),
            ClientError::RegisterFailed => "Failed to register service instance".to_owned(),
            ClientError::UnregisterFailed => "Failed to unregister service instance".to_owned(),
        }
    }
}

/// Where and how a client connects.
pub struct ClientEndpoint {
    /// The hub's address: scheme, host and port.
    pub addr: String,
    pub tls_config: Option<ClientTlsConfig>,
    pub timeout: Option<Duration>,
    pub connect_timeout: Option<Duration>,
}

/// Collects what a client needs to connect.
pub struct ServiceClientBuilder {
    pub scheme: Scheme,
    pub server_host: Option<String>,
    pub server_port: Option<u16>,
    pub tls_config: Option<ClientTlsConfig>,
    pub timeout: Option<Duration>,
    pub connect_timeout: Option<Duration>,
}

impl Default for ServiceClientBuilder {
    fn default() -> (builder: ServiceClientBuilder)
        ensures
            builder.scheme == Scheme::Http,
            builder.server_host is None,
            builder.server_port is None,
            builder.tls_config is None,
            builder.timeout is None,
            builder.connect_timeout is None,
    {
        ServiceClientBuilder::new()
    }
}

impl ServiceClientBuilder {
    /// A builder that knows nothing yet and connects without TLS.
    pub fn new() -> (builder: ServiceClientBuilder)
        ensures
            builder.scheme == Scheme::Http,
            builder.server_host is None,
            builder.server_port is None,
            builder.tls_config is None,
            builder.timeout is None,
            builder.connect_timeout is None,
    {
        ServiceClientBuilder {
            scheme: Scheme::Http,
            server_host: None,
            server_port: None,
            tls_config: None,
            timeout: None,
            connect_timeout: None,
        }
    }

    pub fn server_host(self, host: &str) -> (builder: ServiceClientBuilder)
        ensures
            builder.server_host matches Some(h) && h@ == host@,
            builder.scheme == self.scheme,
            builder.server_port == self.server_port,
            builder.tls_config == self.tls_config,
            builder.timeout == self.timeout,
            builder.connect_timeout == self.connect_timeout,
    {
        let mut builder = self;
        builder.server_host = Some(host.to_owned());
        builder
    }

    pub fn server_port(self, port: u16) -> (builder: ServiceClientBuilder)
        ensures
            builder == (ServiceClientBuilder { server_port: Some(port), ..self }),
    {
        let mut builder = self;
        builder.server_port = Some(port);
        builder
    }

    /// Connects with TLS, under `tls_config`.
    pub fn tls_config(self, tls_config: ClientTlsConfig) -> (builder: ServiceClientBuilder)
        ensures
            builder == (ServiceClientBuilder {
                scheme: Scheme::Https,
                tls_config: Some(tls_config),
                ..self
            }),
    {
        let mut builder = self;
        builder.scheme = Scheme::Https;
        builder.tls_config = Some(tls_config);
        builder
    }

    pub fn timeout(self, timeout: Duration) -> (builder: ServiceClientBuilder)
        ensures
            builder == (ServiceClientBuilder { timeout: Some(timeout), ..self }),
    {
        let mut builder = self;
        builder.timeout = Some(timeout);
        builder
    }

    pub fn connect_timeout(self, connect_timeout: Duration) -> (builder: ServiceClientBuilder)
        ensures
            builder == (ServiceClientBuilder { connect_timeout: Some(connect_timeout), ..self }),
    {
        let mut builder = self;
        builder.connect_timeout = Some(connect_timeout);
        builder
    }

    /// Where and how to connect. Fails if the host is missing, else if the port
    /// is.
    pub fn build(self) -> (outcome: Result<ClientEndpoint, ClientError>)
        ensures
            match outcome {
                Ok(endpoint) => {
                    &&& self.server_host matches Some(host)
                    &&& self.server_port matches Some(port)
                    &&& endpoint.addr@ == address_of(self.scheme, host@, port as nat)
                    &&& endpoint.tls_config == self.tls_config
                    &&& endpoint.timeout == self.timeout
                    &&& endpoint.connect_timeout == self.connect_timeout
                },
                Err(error) => error == (if self.server_host is None {
                    ClientError::HostNotSet
                } else {
                    ClientError::PortNotSet
                }) && (self.server_host is None || self.server_port is None),
            },
    {
        let host = match self.server_host {
            Some(host) => host,
            None => {
                return Err(ClientError::HostNotSet);
            },
        };
        let port = match self.server_port {
            Some(port) => port,
            None => {
                return Err(ClientError::PortNotSet);
            },
        };
        let addr = compose_address(self.scheme, host.as_str(), port as u32);
        Ok(
            ClientEndpoint {
                addr,
                tls_config: self.tls_config,
                timeout: self.timeout,
                connect_timeout: self.connect_timeout,
            },
        )
    }
}

/// The time between two attempts to subscribe: the client's connect timeout, or
/// [`DEFAULT_CONNECT_TIMEOUT`] seconds if it has none.
pub fn retry_delay(connect_timeout: Option<Duration>) -> (delay: Duration)
    ensures
        delay == (match connect_timeout {
            Some(timeout) => timeout,
            None => duration_of_secs(DEFAULT_CONNECT_TIMEOUT),
        }),
{
    match connect_timeout {
        Some(timeout) => timeout,
        None => duration_from_secs(DEFAULT_CONNECT_TIMEOUT),
    }
}

/// Counts a client's failed attempts to subscribe.
#[derive(Clone, Copy, Debug, PartialEq, Eq, Structural)]
pub struct Resubscribe {
    /// The failed attempts since the last one that succeeded.
    pub retries: u32,
}

impl Resubscribe {
    pub fn new() -> (state: Resubscribe)
        ensures
            state.retries == 0,
    {
        Resubscribe { retries: 0 }
    }

    /// An attempt succeeded: the count starts over.
    pub fn subscribed(&mut self)
        ensures
            final(self).retries == 0,
    {
        self.retries = 0;
    }

    /// An attempt failed. Says whether the client tries again, after the retry
    /// delay; after [`MAX_RETRIES`] failures in a row it gives up.
    pub fn failed(&mut self) -> (again: bool)
        ensures
            again == (old(self).retries < MAX_RETRIES),
            final(self).retries == (if again {
                old(self).retries + 1
            } else {
                old(self).retries as int
            }),
    {
        if self.retries < MAX_RETRIES {
            self.retries = self.retries + 1;
            true
        } else {
            false
        }
    }
}

/// What the hub's answer to a register request amounts to.
pub fn check_registered(status: &OperationStatus) -> (outcome: Result<(), ClientError>)
    ensures
        outcome == (if status.success {
            Ok::<(), ClientError>(())
        } else {
            Err::<(), ClientError>(ClientError::RegisterFailed)
        }),
{
    if status.success {
        Ok(())
    } else {
        Err(ClientError::RegisterFailed)
    }
}

/// What the hub's answer to an unregister request amounts to.
pub fn check_unregistered(status: &OperationStatus) -> (outcome: Result<(), ClientError>)
    ensures
        outcome == (if status.success {
            Ok::<(), ClientError>(())
        } else {
            Err::<(), ClientError>(ClientError::UnregisterFailed)
        }),
{
    if status.success {
        Ok(())
    } else {
        Err(ClientError::UnregisterFailed)
    }
}

} // verus!

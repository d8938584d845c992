//! The connector: a shared client configuration, and the service made from it.

use std::sync::Arc;
use tokio_rustls::rustls::client::InvalidDnsNameError;
use tokio_rustls::rustls::{ClientConfig, ServerName};
use vstd::prelude::*;

use crate::connection::{Connection, Host};
use crate::handshake::{share_config, start_spec, ConnectFut, ConnectState};

verus! {

/// `rustls::ClientConfig`, carried as it is.
#[verifier::external_type_specification]
#[verifier::external_body]
pub struct ExClientConfig(ClientConfig);

/// `rustls::ServerName`, carried as it is.
#[verifier::external_type_specification]
#[verifier::external_body]
pub struct ExServerName(ServerName);

/// `rustls::client::InvalidDnsNameError`, carried as it is.
#[verifier::external_type_specification]
#[verifier::external_body]
pub struct ExInvalidDnsNameError(InvalidDnsNameError);

/// What `rustls` makes of a host name: the server name it stands for, or the
/// refusal.
pub uninterp spec fn server_name_parse(host: Seq<char>) -> Result<
    ServerName,
    InvalidDnsNameError,
>;

/// `ServerName::try_from` on a string. The contract gives the outcome its
/// name and says nothing of which names are taken.
#[verifier::external_body]
fn parse_server_name(host: &str) -> (parsed: Result<ServerName, InvalidDnsNameError>)
    ensures
        parsed == server_name_parse(host@),
{
    ServerName::try_from(host)
}

/// The state that the upgrade of `connection` starts in under `config`: the
/// stream goes to the handshake, the request is parked, and the host name of
/// the request decides whether there is a handshake at all.
pub open spec fn call_spec<R: Host, IO>(
    config: Arc<ClientConfig>,
    connection: Connection<R, IO>,
) -> ConnectState<R, IO> {
    start_spec(
        server_name_parse(connection.req.hostname_spec()),
        config,
        connection.io,
        connection.with_io(()),
    )
}

/// Connector service factory using `rustls`.
#[derive(Clone)]
pub struct TlsConnector {
    connector: Arc<ClientConfig>,
}

impl TlsConnector {
    /// The configuration that every service of this factory runs under.
    pub closed spec fn config(&self) -> Arc<ClientConfig> {
        self.connector
    }

    /// Constructs new connector service factory from a `rustls` client configuration.
    pub fn new(connector: Arc<ClientConfig>) -> (factory: Self)
        ensures
            factory.config() == connector,
    {
        TlsConnector { connector }
    }

    /// Constructs new connector service from a `rustls` client configuration.
    pub fn service(connector: Arc<ClientConfig>) -> (service: TlsConnectorService)
        ensures
            service.config() == connector,
    {
        TlsConnectorService { connector }
    }

    /// Makes a service that shares this factory's configuration. This never
    /// fails.
    pub fn new_service(&self, _cfg: ()) -> (made: Result<TlsConnectorService, ()>)
        ensures
            made is Ok,
            made->Ok_0.config() == self.config(),
    {
        Ok(TlsConnectorService { connector: share_config(&self.connector) })
    }
}

/// Connector service using `rustls`.
#[derive(Clone)]
pub struct TlsConnectorService {
    connector: Arc<ClientConfig>,
}

impl TlsConnectorService {
    /// The configuration that the handshakes of this service run under.
    pub closed spec fn config(&self) -> Arc<ClientConfig> {
        self.connector
    }

    /// Begins the upgrade of `connection`.
    ///
    /// The stream is taken out of the connection and the host name of the
    /// request is parsed. If it names a server, the upgrade is pending: its
    /// handshake holds this service's configuration, the server name and the
    /// stream. If not, the upgrade has failed for good.
    pub fn call<R: Host, IO>(&self, connection: Connection<R, IO>) -> (fut: ConnectFut<R, IO>)
        ensures
            fut@ == call_spec(self.config(), connection),
    {
        let (stream, connection) = connection.replace_io(());
        let parsed = parse_server_name(connection.hostname());
        ConnectFut::new(parsed, &self.connector, stream, connection)
    }
}

} // verus!

use std::future::{poll_fn, Future};
use std::io;
use std::pin::Pin;
use std::sync::Arc;
use std::task::Poll;

use actix_tls::{ConnectError, ConnectFut, Connection, Progress, TlsConnector, HOSTNAME_ONLY};
use rcgen::{BasicConstraints, Certificate, CertificateParams, DnType, IsCa, KeyUsagePurpose};
use tokio::io::{AsyncReadExt, AsyncWriteExt, DuplexStream};
use tokio::runtime::{Builder, Runtime};
use tokio_rustls::client::TlsStream;
use tokio_rustls::rustls::{self, ClientConfig, RootCertStore, ServerConfig};
use tokio_rustls::TlsAcceptor;

type Upgraded = Connection<String, TlsStream<DuplexStream>>;

struct Authority {
    certificate: Certificate,
}

impl Authority {
    fn new() -> Authority {
        let mut params = CertificateParams::new(Vec::<String>::new());
        params.is_ca = IsCa::Ca(BasicConstraints::Unconstrained);
        params.distinguished_name.push(DnType::CommonName, "test authority");
        params.key_usages = vec![
            KeyUsagePurpose::KeyCertSign,
            KeyUsagePurpose::DigitalSignature,
            KeyUsagePurpose::CrlSign,
        ];
        Authority { certificate: Certificate::from_params(params).unwrap() }
    }

    fn client_config(&self) -> Arc<ClientConfig> {
        let mut roots = RootCertStore::empty();
        roots.add(&rustls::Certificate(self.certificate.serialize_der().unwrap())).unwrap();
        Arc::new(
            ClientConfig::builder()
                .with_safe_defaults()
                .with_root_certificates(roots)
                .with_no_client_auth(),
        )
    }

    fn server_for(&self, name: &str) -> TlsAcceptor {
        let leaf = Certificate::from_params(CertificateParams::new(vec![name.to_string()])).unwrap();
        let chain = vec![rustls::Certificate(
            leaf.serialize_der_with_signer(&self.certificate).unwrap(),
        )];
        let key = rustls::PrivateKey(leaf.serialize_private_key_der());
        let config = ServerConfig::builder()
            .with_safe_defaults()
            .with_no_client_auth()
            .with_single_cert(chain, key)
            .unwrap();
        TlsAcceptor::from(Arc::new(config))
    }
}

fn runtime() -> Runtime {
    Builder::new_current_thread().enable_all().build().unwrap()
}

/// Runs the handshake that the upgrade hands out and reports every poll of it.
async fn drive(
    mut fut: ConnectFut<String, DuplexStream>,
) -> Result<Upgraded, ConnectError<io::Error>> {
    let mut connect = fut.take_handshake().map(|handshake| {
        tokio_rustls::TlsConnector::from(handshake.config)
            .connect(handshake.server_name, handshake.stream)
    });
    poll_fn(move |cx| {
        let report = match connect.as_mut() {
            Some(connect) => match Pin::new(connect).poll(cx) {
                Poll::Pending => Progress::Pending,
                Poll::Ready(outcome) => Progress::Ready(outcome),
            },
            None => Progress::Pending,
        };
        match fut.poll(report) {
            Progress::Pending => Poll::Pending,
            Progress::Ready(outcome) => Poll::Ready(outcome),
        }
    })
    .await
}

#[test]
fn upgrade_succeeds_against_a_trusted_server() {
    let authority = Authority::new();
    let acceptor = authority.server_for("example.test");
    let service = TlsConnector::service(authority.client_config());
    let runtime = runtime();
    let (client_end, server_end) = tokio::io::duplex(1 << 16);

    let server = runtime.spawn(async move {
        let mut stream = acceptor.accept(server_end).await.unwrap();
        let mut request = [0u8; 4];
        stream.read_exact(&mut request).await.unwrap();
        stream.write_all(b"pong").await.unwrap();
        stream.flush().await.unwrap();
        request
    });

    let fut = service.call(Connection::new(String::from("example.test"), client_end));
    assert!(!fut.is_failed());
    let connection = match runtime.block_on(drive(fut)) {
        Ok(connection) => connection,
        Err(ConnectError::Handshake(error)) => panic!("handshake failed: {}", error),
        Err(ConnectError::UnsupportedDestination) => panic!("host name refused"),
    };
    assert_eq!(connection.hostname(), "example.test");

    let (mut stream, request) = connection.into_parts();
    assert_eq!(request, "example.test");
    let reply = runtime.block_on(async {
        stream.write_all(b"ping").await.unwrap();
        stream.flush().await.unwrap();
        let mut reply = [0u8; 4];
        stream.read_exact(&mut reply).await.unwrap();
        reply
    });
    assert_eq!(&reply, b"pong");
    assert_eq!(&runtime.block_on(server).unwrap(), b"ping");
}

#[test]
fn upgrade_to_a_malformed_host_writes_nothing() {
    let authority = Authority::new();
    let service = TlsConnector::service(authority.client_config());
    let runtime = runtime();
    let (client_end, mut server_end) = tokio::io::duplex(1 << 16);

    let fut = service.call(Connection::new(String::from("not a hostname!!"), client_end));
    assert!(fut.is_failed());
    let outcome = runtime.block_on(drive(fut));
    assert!(matches!(outcome, Err(ConnectError::UnsupportedDestination)));

    let mut received = Vec::new();
    let count = runtime.block_on(server_end.read_to_end(&mut received)).unwrap();
    assert_eq!(count, 0);
    assert!(received.is_empty());
    assert_eq!(HOSTNAME_ONLY, "actix-tls currently only handles hostname-based connections");
}

#[test]
fn upgrade_fails_when_the_server_proves_another_name() {
    let authority = Authority::new();
    let acceptor = authority.server_for("other.test");
    let service = TlsConnector::service(authority.client_config());
    let runtime = runtime();
    let (client_end, server_end) = tokio::io::duplex(1 << 16);

    let server = runtime.spawn(async move { acceptor.accept(server_end).await.is_ok() });

    let fut = service.call(Connection::new(String::from("example.test"), client_end));
    assert!(!fut.is_failed());
    match runtime.block_on(drive(fut)) {
        Err(ConnectError::Handshake(error)) => {
            assert_eq!(error.kind(), io::ErrorKind::InvalidData);
        }
        Err(ConnectError::UnsupportedDestination) => panic!("host name refused"),
        Ok(_) => panic!("a connection was returned"),
    }
    let _ = runtime.block_on(server);
}

#[test]
fn upgrade_fails_when_the_authority_is_unknown() {
    let trusted = Authority::new();
    let stranger = Authority::new();
    let acceptor = stranger.server_for("example.test");
    let service = TlsConnector::service(trusted.client_config());
    let runtime = runtime();
    let (client_end, server_end) = tokio::io::duplex(1 << 16);

    let server = runtime.spawn(async move { acceptor.accept(server_end).await.is_ok() });

    let fut = service.call(Connection::new(String::from("example.test"), client_end));
    let outcome = runtime.block_on(drive(fut));
    assert!(matches!(outcome, Err(ConnectError::Handshake(_))));
    let _ = runtime.block_on(server);
}

#[test]
fn abandoned_upgrade_closes_the_stream() {
    let authority = Authority::new();
    let service = TlsConnector::service(authority.client_config());
    let runtime = runtime();
    let (client_end, mut server_end) = tokio::io::duplex(1 << 16);

    let fut = service.call(Connection::new(String::from("example.test"), client_end));
    assert!(!fut.is_failed());
    drop(fut);

    let mut received = Vec::new();
    let count = runtime.block_on(server_end.read_to_end(&mut received)).unwrap();
    assert_eq!(count, 0);
}

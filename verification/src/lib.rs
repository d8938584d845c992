//! Client-side TLS upgrade for established connections, on top of `rustls`.
//!
//! A [`TlsConnector`] holds a shared client configuration and hands out
//! [`TlsConnectorService`] values. A service takes a plain [`Connection`],
//! validates the host name of its request and answers with a [`ConnectFut`]:
//! a small state machine that parks the request while the handshake runs and
//! pairs it with the encrypted stream once the handshake has succeeded.
//!
//! The handshake itself performs I/O and is driven by the caller; this crate
//! decides what is started, what each report of the handshake leads to, and
//! what the caller finally gets.

pub mod connection;
pub mod connector;
pub mod handshake;
pub mod laws;
pub mod trust;

pub use connection::{Connection, Host};
pub use connector::{TlsConnector, TlsConnectorService};
pub use handshake::{
    ConnectError, ConnectFut, ConnectState, Handshake, Progress, HOSTNAME_ONLY,
};
pub use trust::{cert_store_from, webpki_roots_cert_store, TrustAnchor};

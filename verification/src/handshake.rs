//! The state machine of one TLS upgrade.
//!
//! A handshake reads and writes the stream, so it runs outside this crate:
//! whoever drives a [`ConnectFut`] takes the [`Handshake`] out of it, starts
//! it, and reports what each poll of it gave. The machine decides what the
//! caller gets in return.

use std::sync::Arc;
use tokio_rustls::rustls::client::InvalidDnsNameError;
use tokio_rustls::rustls::{ClientConfig, ServerName};
use vstd::prelude::*;

use crate::connection::Connection;

verus! {

/// What the caller is told when the destination has no usable host name.
pub const HOSTNAME_ONLY: &'static str =
    "actix-tls currently only handles hostname-based connections";

/// A handshake that is ready to be started: the configuration to run it
/// under, the identity the server has to prove, and the stream to run it on.
pub struct Handshake<IO> {
    pub config: Arc<ClientConfig>,
    pub server_name: ServerName,
    pub stream: IO,
}

/// The outcome of a poll: a value, or word that there is none yet.
pub enum Progress<T> {
    Pending,
    Ready(T),
}

/// Why an upgrade ended without a connection.
pub enum ConnectError<E> {
    /// The request's host name is not one a server can be identified by.
    UnsupportedDestination,
    /// The handshake failed; the error is the handshake's own.
    Handshake(E),
}

/// The states of an upgrade.
pub enum ConnectState<R, IO> {
    /// The host name was refused. Nothing was started and nothing will be.
    Failed,
    /// The request is parked until the handshake ends. `connect` holds the
    /// handshake until the driver has taken it.
    Pending { connect: Option<Handshake<IO>>, connection: Connection<R, ()> },
    /// The handshake has ended and its outcome has been handed out.
    Resolved,
}

/// What a poll leads to: the state after it and what the caller is told.
///
/// A failed upgrade answers every poll with the same error, whatever is
/// reported. A pending one waits while the handshake does, passes the
/// handshake's error on as it is, and on success pairs the parked request
/// with the encrypted stream. An upgrade that has ended is not polled.
pub open spec fn poll_spec<R, IO, S, E>(
    state: ConnectState<R, IO>,
    inner: Progress<Result<S, E>>,
) -> (ConnectState<R, IO>, Progress<Result<Connection<R, S>, ConnectError<E>>>)
    recommends
        !(state is Resolved),
{
    match state {
        ConnectState::Failed => (
            ConnectState::Failed,
            Progress::Ready(Err(ConnectError::UnsupportedDestination)),
        ),
        ConnectState::Pending { connect, connection } => match inner {
            Progress::Pending => (state, Progress::Pending),
            Progress::Ready(Ok(stream)) => (
                ConnectState::Resolved,
                Progress::Ready(Ok(connection.with_io(stream))),
            ),
            Progress::Ready(Err(error)) => (
                ConnectState::Resolved,
                Progress::Ready(Err(ConnectError::Handshake(error))),
            ),
        },
        ConnectState::Resolved => (ConnectState::Resolved, Progress::Pending),
    }
}

/// The state an upgrade starts in, given what parsing the host name gave.
pub open spec fn start_spec<R, IO>(
    parsed: Result<ServerName, InvalidDnsNameError>,
    config: Arc<ClientConfig>,
    stream: IO,
    connection: Connection<R, ()>,
) -> ConnectState<R, IO> {
    match parsed {
        Ok(server_name) => ConnectState::Pending {
            connect: Some(Handshake { config, server_name, stream }),
            connection,
        },
        Err(_) => ConnectState::Failed,
    }
}

/// The state after the driver has asked for the handshake.
pub open spec fn taken_spec<R, IO>(state: ConnectState<R, IO>) -> ConnectState<R, IO> {
    match state {
        ConnectState::Pending { connect, connection } => ConnectState::Pending {
            connect: None,
            connection,
        },
        _ => state,
    }
}

/// The handshake that the driver gets when it asks for it in `state`.
pub open spec fn handshake_spec<R, IO>(state: ConnectState<R, IO>) -> Option<Handshake<IO>> {
    match state {
        ConnectState::Pending { connect, connection } => connect,
        _ => None,
    }
}

/// One upgrade of a connection, from the call of the service to its outcome.
pub struct ConnectFut<R, IO> {
    failed: bool,
    connect: Option<Handshake<IO>>,
    connection: Option<Connection<R, ()>>,
}

impl<R, IO> View for ConnectFut<R, IO> {
    type V = ConnectState<R, IO>;

    closed spec fn view(&self) -> ConnectState<R, IO> {
        if self.failed {
            ConnectState::Failed
        } else {
            match self.connection {
                Some(connection) => ConnectState::Pending { connect: self.connect, connection },
                None => ConnectState::Resolved,
            }
        }
    }
}

impl<R, IO> ConnectFut<R, IO> {
    /// Begins an upgrade from the outcome of parsing the host name.
    ///
    /// With a server name the upgrade is pending: the handshake holds the
    /// stream, the request is parked. Without one it has failed, and the
    /// stream and the request are released.
    pub fn new(
        parsed: Result<ServerName, InvalidDnsNameError>,
        config: &Arc<ClientConfig>,
        stream: IO,
        connection: Connection<R, ()>,
    ) -> (fut: Self)
        ensures
            fut@ == start_spec(parsed, *config, stream, connection),
    {
        match parsed {
            Ok(server_name) => ConnectFut {
                failed: false,
                connect: Some(Handshake { config: share_config(config), server_name, stream }),
                connection: Some(connection),
            },
            Err(_) => ConnectFut { failed: true, connect: None, connection: None },
        }
    }

    /// Whether the host name was refused.
    pub fn is_failed(&self) -> (failed: bool)
        ensures
            failed == (self@ is Failed),
    {
        self.failed
    }

    /// Whether the outcome has been handed out already.
    pub fn is_resolved(&self) -> (resolved: bool)
        ensures
            resolved == (self@ is Resolved),
    {
        !self.failed && self.connection.is_none()
    }

    /// Hands the handshake to the driver, once.
    ///
    /// Gives `None` when the upgrade has failed or ended, and when the
    /// handshake was taken before; the state is then left as it is.
    pub fn take_handshake(&mut self) -> (handshake: Option<Handshake<IO>>)
        ensures
            handshake == handshake_spec(old(self)@),
            final(self)@ == taken_spec(old(self)@),
    {
        if self.failed || self.connection.is_none() {
            None
        } else {
            self.connect.take()
        }
    }

    /// Takes what a poll of the handshake gave and answers the caller's poll.
    ///
    /// Where no handshake runs, because the host name was refused, the
    /// driver reports `Progress::Pending`; the answer is the same for every
    /// report. An upgrade whose outcome was handed out is not polled again.
    pub fn poll<S, E>(&mut self, inner: Progress<Result<S, E>>) -> (out: Progress<
        Result<Connection<R, S>, ConnectError<E>>,
    >)
        requires
            !(old(self)@ is Resolved),
        ensures
            (final(self)@, out) == poll_spec(old(self)@, inner),
    {
        if self.failed {
            return Progress::Ready(Err(ConnectError::UnsupportedDestination));
        }
        match inner {
            Progress::Pending => Progress::Pending,
            Progress::Ready(result) => {
                self.connect = None;
                let connection = self.connection.take().unwrap();
                match result {
                    Ok(stream) => Progress::Ready(Ok(connection.replace_io(stream).1)),
                    Err(error) => Progress::Ready(Err(ConnectError::Handshake(error))),
                }
            },
        }
    }
}

/// `Arc::clone`: a second handle on the same configuration. The contract
/// says that the new handle holds what the given one holds.
#[verifier::external_body]
pub(crate) fn share_config(config: &Arc<ClientConfig>) -> (shared: Arc<ClientConfig>)
    ensures
        shared == *config,
{
    Arc::clone(config)
}

} // verus!

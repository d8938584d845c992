//! What holds of an upgrade from the call of the service to its outcome.

use std::sync::Arc;
use tokio_rustls::rustls::ClientConfig;
use vstd::prelude::*;

use crate::connection::{Connection, Host};
use crate::connector::{call_spec, server_name_parse};
use crate::handshake::{
    handshake_spec, poll_spec, taken_spec, ConnectError, ConnectState, Progress,
};
use crate::trust::{compiled_root, is_compiled_table, AnchorParts};

verus! {

/// The state after a run of polls, each with the report given for it.
pub open spec fn poll_all<R, IO, S, E>(
    state: ConnectState<R, IO>,
    reports: Seq<Progress<Result<S, E>>>,
) -> ConnectState<R, IO>
    decreases reports.len(),
{
    if reports.len() == 0 {
        state
    } else {
        poll_spec(poll_all(state, reports.drop_last()), reports.last()).0
    }
}

/// Whether every report says that the handshake has not ended yet.
pub open spec fn all_pending<S, E>(reports: Seq<Progress<Result<S, E>>>) -> bool {
    forall|i: int| 0 <= i < reports.len() ==> #[trigger] reports[i] is Pending
}

/// While the handshake has not ended, a pending upgrade stays as it is and
/// tells its caller to wait.
pub proof fn law_pending_waits<R, IO, S, E>(
    state: ConnectState<R, IO>,
    reports: Seq<Progress<Result<S, E>>>,
)
    requires
        state is Pending,
        all_pending(reports),
    ensures
        poll_all(state, reports) == state,
        poll_spec(state, Progress::<Result<S, E>>::Pending).1 is Pending,
    decreases reports.len(),
{
    if reports.len() > 0 {
        let earlier = reports.drop_last();
        assert forall|i: int| 0 <= i < earlier.len() implies #[trigger] earlier[i] is Pending by {
            assert(earlier[i] == reports[i]);
        }
        law_pending_waits(state, earlier);
    }
}

/// An upgrade hands back the request it was called with: where the host name
/// is taken and the handshake succeeds, after any number of polls that found
/// it unfinished, the caller gets the request of `connection`, unchanged,
/// paired with the stream that the handshake gave.
pub proof fn law_upgrade_keeps_request<R: Host, IO, S, E>(
    config: Arc<ClientConfig>,
    connection: Connection<R, IO>,
    waits: Seq<Progress<Result<S, E>>>,
    encrypted: S,
)
    requires
        server_name_parse(connection.req.hostname_spec()) is Ok,
        all_pending(waits),
    ensures
        ({
            let started = taken_spec(call_spec(config, connection));
            let outcome = poll_spec(
                poll_all(started, waits),
                Progress::<Result<S, E>>::Ready(Ok(encrypted)),
            );
            &&& outcome.0 is Resolved
            &&& outcome.1 == Progress::<Result<Connection<R, S>, ConnectError<E>>>::Ready(
                Ok(Connection { req: connection.req, io: encrypted }),
            )
        }),
{
    law_pending_waits(taken_spec(call_spec(config, connection)), waits);
}

/// The handshake that a call hands to the driver holds the stream of the
/// connection and the configuration of the service, and is handed out once.
pub proof fn law_handshake_owns_stream<R: Host, IO>(
    config: Arc<ClientConfig>,
    connection: Connection<R, IO>,
)
    requires
        server_name_parse(connection.req.hostname_spec()) is Ok,
    ensures
        ({
            let state = call_spec(config, connection);
            &&& handshake_spec(state) matches Some(handshake)
            &&& handshake.stream == connection.io
            &&& handshake.config == config
            &&& Ok::<_, tokio_rustls::rustls::client::InvalidDnsNameError>(handshake.server_name)
                == server_name_parse(connection.req.hostname_spec())
            &&& handshake_spec(taken_spec(state)) is None
        }),
{
}

/// A host name that is refused fails the upgrade at once: no handshake is
/// handed out, so nothing touches the stream, and the first poll, whatever is
/// reported with it, ends in the error for an unsupported destination.
pub proof fn law_refused_host_fails_at_once<R: Host, IO, S, E>(
    config: Arc<ClientConfig>,
    connection: Connection<R, IO>,
    report: Progress<Result<S, E>>,
)
    requires
        server_name_parse(connection.req.hostname_spec()) is Err,
    ensures
        call_spec(config, connection) is Failed,
        handshake_spec(call_spec(config, connection)) is None,
        poll_spec(call_spec(config, connection), report).1 == Progress::<
            Result<Connection<R, S>, ConnectError<E>>,
        >::Ready(Err(ConnectError::UnsupportedDestination)),
{
}

/// A failed upgrade stays failed: every poll of it, after any polls before,
/// gives the same error and leaves the state as it was.
pub proof fn law_failed_is_stable<R, IO, S, E>(
    reports: Seq<Progress<Result<S, E>>>,
    report: Progress<Result<S, E>>,
)
    ensures
        poll_all(ConnectState::<R, IO>::Failed, reports) is Failed,
        poll_spec(poll_all(ConnectState::<R, IO>::Failed, reports), report) == (
            ConnectState::<R, IO>::Failed,
            Progress::<Result<Connection<R, S>, ConnectError<E>>>::Ready(
                Err(ConnectError::UnsupportedDestination),
            ),
        ),
    decreases reports.len(),
{
    if reports.len() > 0 {
        law_failed_is_stable::<R, IO, S, E>(reports.drop_last(), reports.last());
    }
}

/// No poll leads into the failed state: an upgrade that was pending or has
/// ended never turns into one that was refused.
pub proof fn law_failed_only_at_start<R, IO, S, E>(
    state: ConnectState<R, IO>,
    report: Progress<Result<S, E>>,
)
    requires
        !(state is Failed),
    ensures
        !(poll_spec(state, report).0 is Failed),
        !(taken_spec(state) is Failed),
{
}

/// Once the handshake has ended, so has the upgrade: whatever the outcome,
/// the state is resolved, stays so, and holds no handshake to hand out.
pub proof fn law_outcome_is_final<R, IO, S, E>(
    state: ConnectState<R, IO>,
    outcome: Result<S, E>,
)
    requires
        state is Pending,
    ensures
        poll_spec(state, Progress::Ready(outcome)).0 is Resolved,
        poll_spec(state, Progress::Ready(outcome)).1 is Ready,
        taken_spec(ConnectState::<R, IO>::Resolved) is Resolved,
        handshake_spec(ConnectState::<R, IO>::Resolved) is None,
{
}

/// A handshake that fails ends the upgrade with the handshake's own error.
pub proof fn law_handshake_error_is_passed_on<R, IO, S, E>(
    state: ConnectState<R, IO>,
    error: E,
)
    requires
        state is Pending,
    ensures
        poll_spec(state, Progress::<Result<S, E>>::Ready(Err(error))) == (
            ConnectState::<R, IO>::Resolved,
            Progress::<Result<Connection<R, S>, ConnectError<E>>>::Ready(
                Err(ConnectError::Handshake(error)),
            ),
        ),
{
}

/// Taking the stream out of a connection and putting a stream back keeps the
/// request; putting the same stream back gives the connection that was.
pub proof fn law_replace_io_round_trip<R, IO, S>(connection: Connection<R, IO>, encrypted: S)
    ensures
        connection.with_io(()).with_io(encrypted).req == connection.req,
        connection.with_io(()).with_io(encrypted).io == encrypted,
        connection.with_io(()).with_io(connection.io) == connection,
{
}

/// There is one compiled-in table of roots: two lists that are the table are
/// the same list, so the default store holds the same anchors whenever it is
/// built.
pub proof fn law_compiled_table_is_one(first: Seq<AnchorParts>, second: Seq<AnchorParts>)
    requires
        is_compiled_table(first),
        is_compiled_table(second),
    ensures
        first == second,
{
    if first.len() < second.len() {
        assert(compiled_root(first.len() as int) is None);
        assert(false);
    }
    if second.len() < first.len() {
        assert(compiled_root(second.len() as int) is None);
        assert(false);
    }
    assert forall|index: int| 0 <= index < first.len() implies first[index] == second[index] by {
        assert(compiled_root(index) == Some(first[index]));
    }
    assert(first =~= second);
}

} // verus!

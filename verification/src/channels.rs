//! Trusted bindings to the tokio channel and cancellation primitives.
//!
//! The service distributes envelopes through a broadcast channel, announces
//! topic changes through a watch channel, answers report requests through
//! one-shot channels, and stops through a shared cancellation token.  The
//! asynchronous receive sides of these primitives live in the surrounding
//! (unverified) connection loops; the synchronous send and cancel calls are
//! made here, each behind one trusted wrapper whose contract states what
//! the called crate's documentation promises.

use crate::session::Envelope;
use tokio::sync::broadcast;
use tokio::sync::oneshot;
use tokio::sync::watch;
use tokio_util::sync::CancellationToken;
use vstd::prelude::*;

verus! {

#[verifier::external_type_specification]
#[verifier::external_body]
#[verifier::reject_recursive_types(T)]
pub struct ExBroadcastSender<T>(broadcast::Sender<T>);

#[verifier::external_type_specification]
#[verifier::external_body]
#[verifier::reject_recursive_types(T)]
pub struct ExWatchSender<T>(watch::Sender<T>);

#[verifier::external_type_specification]
#[verifier::external_body]
#[verifier::reject_recursive_types(T)]
pub struct ExOneshotSender<T>(oneshot::Sender<T>);

#[verifier::external_type_specification]
#[verifier::external_body]
pub struct ExCancellationToken(CancellationToken);

/// Relies on tokio::sync::broadcast::Sender::send: the envelope is queued
/// for every receiver subscribed at the time of the call; the call returns
/// the number of such receivers, and fails exactly when none remain, so a
/// successful send had at least one.
#[verifier::external_body]
pub(crate) fn broadcast_send(tx: &broadcast::Sender<Envelope>, env: Envelope) -> (r: Result<
    usize,
    (),
>)
    ensures
        r matches Ok(n) ==> n >= 1,
{
    match tx.send(env) {
        Ok(n) => Ok(n),
        Err(_) => Err(()),
    }
}

/// Relies on tokio::sync::watch::Sender::send: the channel's single slot is
/// overwritten with the value and every receiver is notified; the call fails
/// exactly when all receivers are gone, and then hands the value back, which
/// this wrapper discards as the caller still owns its copy of the text.
#[verifier::external_body]
pub(crate) fn watch_send(tx: &watch::Sender<String>, value: String) -> (r: Result<(), ()>) {
    match tx.send(value) {
        Ok(()) => Ok(()),
        Err(_) => Err(()),
    }
}

/// Relies on tokio::sync::oneshot::Sender::send: the value is made available
/// to the single receiver; the call consumes the sender, so at most one value
/// is ever sent, and it fails exactly when the receiver was already dropped,
/// handing the value back.
#[verifier::external_body]
pub(crate) fn oneshot_send(tx: oneshot::Sender<String>, value: String) -> (r: Result<(), String>)
    ensures
        r matches Err(v) ==> v == value,
{
    tx.send(value)
}

/// Relies on tokio_util::sync::CancellationToken::cancel: the token is
/// cancelled, every waiter is woken, and a cancelled token can never be
/// un-cancelled; repeated calls have no further effect.
#[verifier::external_body]
pub(crate) fn token_cancel(token: &CancellationToken) {
    token.cancel()
}

} // verus!

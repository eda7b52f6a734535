//! Trusted boundary to the channels of the `futures` crate.  The core
//! posts registrations and frames through unbounded senders and
//! completes callers through one-shot senders; the async ends of these
//! channels are awaited outside the library.

use vstd::prelude::*;

verus! {

#[verifier::external_type_specification]
#[verifier::external_body]
#[verifier::reject_recursive_types(T)]
pub struct ExOneshotSender<T>(futures::channel::oneshot::Sender<T>);

#[verifier::external_type_specification]
#[verifier::external_body]
#[verifier::reject_recursive_types(T)]
pub struct ExOneshotReceiver<T>(futures::channel::oneshot::Receiver<T>);

#[verifier::external_type_specification]
#[verifier::external_body]
pub struct ExCanceled(futures::channel::oneshot::Canceled);

#[verifier::external_type_specification]
#[verifier::external_body]
#[verifier::reject_recursive_types(T)]
pub struct ExUnboundedSender<T>(futures::channel::mpsc::UnboundedSender<T>);

/// Relies on futures' `oneshot::channel`: a fresh single-shot channel;
/// what the sender half is sent, the receiver half yields.
pub assume_specification<T>[ futures::channel::oneshot::channel::<T> ]() -> (r: (
    futures::channel::oneshot::Sender<T>,
    futures::channel::oneshot::Receiver<T>,
));

/// Relies on futures' `oneshot::Sender::send`: completes the receiver
/// with `t`, or hands `t` back if the receiver was dropped.
pub assume_specification<T>[ futures::channel::oneshot::Sender::<T>::send ](
    s: futures::channel::oneshot::Sender<T>,
    t: T,
) -> (r: Result<(), T>)
    ensures
        r matches Err(x) ==> x == t,
;

/// Relies on futures' `UnboundedSender::unbounded_send`: queues `msg`
/// behind all earlier sends, or hands it back (via
/// `TrySendError::into_inner`) if the receiving end is gone.
#[verifier::external_body]
pub(crate) fn unbounded_send<T>(
    tx: &futures::channel::mpsc::UnboundedSender<T>,
    msg: T,
) -> (r: Result<(), T>)
    ensures
        r matches Err(m) ==> m == msg,
{
    tx.unbounded_send(msg).map_err(|e| e.into_inner())
}

} // verus!

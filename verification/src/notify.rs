use vstd::prelude::*;

verus! {

/// Declares futures' one-shot sending endpoint, so the registry can store one
/// per pending request. Opaque to the verifier: values are only held, moved
/// and handed to `send`.
#[verifier::external_type_specification]
#[verifier::external_body]
#[verifier::reject_recursive_types(T)]
pub struct ExSender<T>(futures::channel::oneshot::Sender<T>);

/// Declares futures' one-shot receiving endpoint, returned to the caller of a
/// reservation; the surrounding driver awaits it outside this crate.
#[verifier::external_type_specification]
#[verifier::external_body]
#[verifier::reject_recursive_types(T)]
pub struct ExReceiver<T>(futures::channel::oneshot::Receiver<T>);

/// Declares futures' cancellation marker, the error with which awaiting a
/// receiver resolves after its sender was dropped without completing.
#[verifier::external_type_specification]
#[verifier::external_body]
pub struct ExCanceled(futures::channel::oneshot::Canceled);

/// Relies on futures::channel::oneshot::channel: it returns a fresh
/// single-producer, single-consumer pair. Nothing further is assumed of the
/// two endpoints; the registry's contracts speak only of where a sender is
/// stored.
pub assume_specification<T>[ futures::channel::oneshot::channel::<T> ]() -> (pair: (
    futures::channel::oneshot::Sender<T>,
    futures::channel::oneshot::Receiver<T>,
));

/// Relies on futures::channel::oneshot::Sender::send: it consumes the sender,
/// makes `t` available to the paired receiver, and returns `Err(t)` exactly
/// when that receiver was already dropped.
pub assume_specification<T>[ futures::channel::oneshot::Sender::<T>::send ](
    this: futures::channel::oneshot::Sender<T>,
    t: T,
) -> (r: Result<(), T>)
    ensures
        r matches Err(v) ==> v == t,
;

} // verus!

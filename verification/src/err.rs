use vstd::prelude::*;

verus! {

/// The errors a request-façade operation can return to its caller.
///
/// `UnroutableCompletion` is deliberately absent: a completion that finds no
/// waiter is an operator-visible anomaly counted by the registry, never an
/// error surfaced to any caller (there is no caller left to surface it to).
#[derive(Clone, Copy, Debug, PartialEq, Eq, Structural)]
pub enum BleError {
    /// The stack refused the command at issuance; the raw reject code is kept.
    StackRejected(u32),
    /// A conflicting operation of the same kind is already outstanding.
    SlotBusy,
    /// No completion arrived within the caller's waiting window.
    Timeout,
    /// The operation completed, but the stack reported this non-success
    /// status.
    StackReportedFailure(u32),
}

} // verus!

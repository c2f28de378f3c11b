use vstd::prelude::*;

use std::collections::HashMap;

use futures::channel::oneshot::Receiver;
use futures::channel::oneshot::Sender;

use crate::advertise::AdvertiseConfiguration;
use crate::err::BleError;
use crate::event::CommandOutcome;
use crate::event::Event;
use crate::registry::SlotKind;
use crate::registry::WaiterRegistry;
use crate::registry::slots_unchanged;
use crate::registry::unchanged_but_slot;
use crate::router::RouteOutcome;
use crate::router::routed;

verus! {

broadcast use vstd::std_specs::hash::group_hash_axioms;

/// The capability interface an application implements to be registered:
/// minimally, expose the application id its author chose. The id is handed to
/// the stack with the registration request; the stack's completion event
/// carries it back so the right waiter can be resolved.
pub trait GattApplication {
    /// The caller-chosen application id under which registration is
    /// requested.
    fn get_application_id(&self) -> u16;
}

/// Which single slot a "configure advertising" request correlates on:
/// the payload either configures the advertisement itself or, with
/// `set_scan_rsp`, the scan response, and each has a slot of its own.
pub open spec fn advertising_slot(set_scan_rsp: bool) -> SlotKind {
    if set_scan_rsp {
        SlotKind::ScanResponseData
    } else {
        SlotKind::AdvertisingData
    }
}

/// The slot `advertising_slot` names, as executable code.
fn advertising_slot_of(set_scan_rsp: bool) -> (k: SlotKind)
    ensures
        k == advertising_slot(set_scan_rsp),
{
    if set_scan_rsp {
        SlotKind::ScanResponseData
    } else {
        SlotKind::AdvertisingData
    }
}

/// How a slot request resolves once its wait is over: `wait` is what
/// awaiting the receiver yielded, `None` when the caller's timeout expired
/// first. Exactly one of success, stack-reported failure or timeout.
pub open spec fn settled_outcome(wait: Option<CommandOutcome>) -> Result<(), BleError> {
    match wait {
        Option::None => Result::Err(BleError::Timeout),
        Option::Some(CommandOutcome::Success) => Result::Ok(()),
        Option::Some(CommandOutcome::StackFailure(s)) => Result::Err(
            BleError::StackReportedFailure(s),
        ),
    }
}

/// How a registration request resolves once its wait is over: the assigned
/// interface handle, or timeout.
pub open spec fn settled_registration(wait: Option<u8>) -> Result<u8, BleError> {
    match wait {
        Option::None => Result::Err(BleError::Timeout),
        Option::Some(handle) => Result::Ok(handle),
    }
}

/// The BLE subsystem core: the pending-request correlation state and the
/// application table, behind the per-operation request steps.
///
/// Each asynchronous operation is driven by its caller in three steps, with
/// the suspension between them happening outside this crate:
/// `begin_*` reserves the waiter and returns the receiver to await;
/// the caller then issues the native one-shot command, and on an immediate
/// reject calls `abort_*`, which removes the waiter before the error is
/// returned (never leaving an orphan); otherwise the caller awaits the
/// receiver under its timeout and hands the result to `finish_*`.
/// The stack's callbacks decode their event and call `route_event`.
pub struct EspBle<A> {
    device_name: String,
    registry: WaiterRegistry,
    gatt_if_to_app: HashMap<u8, A>,
}

impl<A> EspBle<A> {
    /// The correlation state: slots, keyed registrations, anomaly counter.
    pub closed spec fn registry(&self) -> WaiterRegistry {
        self.registry
    }

    /// The application table: assigned interface handle to the application
    /// object registered under it.
    pub closed spec fn applications(&self) -> Map<u8, A> {
        self.gatt_if_to_app@
    }

    /// The device name the subsystem was created with.
    pub closed spec fn spec_device_name(&self) -> Seq<char> {
        self.device_name@
    }

    /// Create the subsystem state for a device of the given name: an empty
    /// registry, an empty application table, no anomaly recorded. Radio
    /// bring-up is the caller's separate one-shot concern and carries no
    /// state of interest here.
    pub fn new(device_name: String) -> (b: EspBle<A>)
        ensures
            forall|j: SlotKind| (#[trigger] b.registry().slot_sender(j)) is None,
            b.registry().registrations() == Map::<u16, Sender<u8>>::empty(),
            b.registry().anomalies() == 0,
            b.applications() == Map::<u8, A>::empty(),
            b.spec_device_name() == device_name@,
    {
        EspBle {
            device_name,
            registry: WaiterRegistry::new(),
            gatt_if_to_app: HashMap::new(),
        }
    }

    /// The device name, for display by the surrounding driver.
    pub fn device_name(&self) -> (n: &String)
        ensures
            n@ == self.spec_device_name(),
    {
        &self.device_name
    }

    /// First step of "configure advertising": reserve the correlation slot
    /// the request completes on and return the receiver to await. A slot
    /// with a waiter already pending is refused with `SlotBusy`, and nothing
    /// is touched: operations of one kind must be serialized by their
    /// callers, and a pending waiter is never displaced.
    pub fn begin_configure_advertising(&mut self, config: &AdvertiseConfiguration) -> (r: Result<
        Receiver<CommandOutcome>,
        BleError,
    >)
        ensures
            old(self).registry().slot_occupied(advertising_slot(config.set_scan_rsp)) ==> (
            r matches Err(e) && e == BleError::SlotBusy) && *final(self) == *old(self),
            !old(self).registry().slot_occupied(advertising_slot(config.set_scan_rsp)) ==> r is Ok
                && final(self).registry().slot_occupied(advertising_slot(config.set_scan_rsp))
                && unchanged_but_slot(
                old(self).registry(),
                final(self).registry(),
                advertising_slot(config.set_scan_rsp),
            )
                && final(self).applications() == old(self).applications()
                && final(self).spec_device_name() == old(self).spec_device_name(),
    {
        let kind = advertising_slot_of(config.set_scan_rsp);
        self.registry.reserve_slot(kind)
    }

    /// Teardown after the stack refused to accept the "configure
    /// advertising" command with `reject_code`: the waiter is removed before
    /// the error is returned, so no orphan remains.
    pub fn abort_configure_advertising(&mut self, set_scan_rsp: bool, reject_code: u32) -> (e:
        BleError)
        ensures
            e == BleError::StackRejected(reject_code),
            !final(self).registry().slot_occupied(advertising_slot(set_scan_rsp)),
            unchanged_but_slot(
                old(self).registry(),
                final(self).registry(),
                advertising_slot(set_scan_rsp),
            ),
            final(self).applications() == old(self).applications(),
            final(self).spec_device_name() == old(self).spec_device_name(),
    {
        let kind = advertising_slot_of(set_scan_rsp);
        let _ = self.registry.cancel_slot(kind);
        BleError::StackRejected(reject_code)
    }

    /// Final step of "configure advertising": settle what awaiting the
    /// receiver yielded. On timeout (`wait` is `None`) the waiter is removed
    /// here, so a completion arriving later is unroutable and can never be
    /// misattributed to a subsequent request on the same slot.
    pub fn finish_configure_advertising(
        &mut self,
        set_scan_rsp: bool,
        wait: Option<CommandOutcome>,
    ) -> (r: Result<(), BleError>)
        ensures
            r == settled_outcome(wait),
            wait is Some ==> *final(self) == *old(self),
            wait is None ==> !final(self).registry().slot_occupied(advertising_slot(set_scan_rsp))
                && unchanged_but_slot(
                old(self).registry(),
                final(self).registry(),
                advertising_slot(set_scan_rsp),
            )
                && final(self).applications() == old(self).applications()
                && final(self).spec_device_name() == old(self).spec_device_name(),
    {
        match wait {
            Some(CommandOutcome::Success) => Ok(()),
            Some(CommandOutcome::StackFailure(s)) => Err(BleError::StackReportedFailure(s)),
            None => {
                let kind = advertising_slot_of(set_scan_rsp);
                let _ = self.registry.cancel_slot(kind);
                Err(BleError::Timeout)
            },
        }
    }

    /// First step of "start advertising": reserve the "advertising started"
    /// slot and return the receiver to await. Refused with `SlotBusy`, and
    /// nothing touched, while an earlier start is still unresolved.
    pub fn begin_start_advertise(&mut self) -> (r: Result<Receiver<CommandOutcome>, BleError>)
        ensures
            old(self).registry().slot_occupied(SlotKind::AdvertisingStart) ==> (r matches Err(e)
                && e == BleError::SlotBusy) && *final(self) == *old(self),
            !old(self).registry().slot_occupied(SlotKind::AdvertisingStart) ==> r is Ok
                && final(self).registry().slot_occupied(SlotKind::AdvertisingStart)
                && unchanged_but_slot(
                old(self).registry(),
                final(self).registry(),
                SlotKind::AdvertisingStart,
            )
                && final(self).applications() == old(self).applications()
                && final(self).spec_device_name() == old(self).spec_device_name(),
    {
        self.registry.reserve_slot(SlotKind::AdvertisingStart)
    }

    /// Teardown after the stack refused to accept the "start advertising"
    /// command with `reject_code`: waiter removed, then the error returned.
    pub fn abort_start_advertise(&mut self, reject_code: u32) -> (e: BleError)
        ensures
            e == BleError::StackRejected(reject_code),
            !final(self).registry().slot_occupied(SlotKind::AdvertisingStart),
            unchanged_but_slot(
                old(self).registry(),
                final(self).registry(),
                SlotKind::AdvertisingStart,
            ),
            final(self).applications() == old(self).applications(),
            final(self).spec_device_name() == old(self).spec_device_name(),
    {
        let _ = self.registry.cancel_slot(SlotKind::AdvertisingStart);
        BleError::StackRejected(reject_code)
    }

    /// Final step of "start advertising": settle what awaiting the receiver
    /// yielded; on timeout the waiter is removed here.
    pub fn finish_start_advertise(&mut self, wait: Option<CommandOutcome>) -> (r: Result<
        (),
        BleError,
    >)
        ensures
            r == settled_outcome(wait),
            wait is Some ==> *final(self) == *old(self),
            wait is None ==> !final(self).registry().slot_occupied(SlotKind::AdvertisingStart)
                && unchanged_but_slot(
                old(self).registry(),
                final(self).registry(),
                SlotKind::AdvertisingStart,
            )
                && final(self).applications() == old(self).applications()
                && final(self).spec_device_name() == old(self).spec_device_name(),
    {
        match wait {
            Some(CommandOutcome::Success) => Ok(()),
            Some(CommandOutcome::StackFailure(s)) => Err(BleError::StackReportedFailure(s)),
            None => {
                let _ = self.registry.cancel_slot(SlotKind::AdvertisingStart);
                Err(BleError::Timeout)
            },
        }
    }

    /// First step of "register application": reserve the keyed registration
    /// entry for `app_id` (the id the application exposes) and return the
    /// receiver to await. An id with a registration already pending is
    /// refused with `SlotBusy`; distinct ids never interfere.
    pub fn begin_register_application(&mut self, app_id: u16) -> (r: Result<Receiver<u8>, BleError>)
        ensures
            old(self).registry().registrations().contains_key(app_id) ==> (r matches Err(e) && e
                == BleError::SlotBusy) && *final(self) == *old(self),
            !old(self).registry().registrations().contains_key(app_id) ==> r is Ok
                && final(self).registry().registrations().contains_key(app_id)
                && final(self).registry().registrations().remove(app_id)
                    == old(self).registry().registrations()
                && slots_unchanged(old(self).registry(), final(self).registry())
                && final(self).registry().anomalies() == old(self).registry().anomalies()
                && final(self).applications() == old(self).applications()
                && final(self).spec_device_name() == old(self).spec_device_name(),
    {
        self.registry.reserve_registration(app_id)
    }

    /// Teardown after the stack refused to accept the registration command
    /// for `app_id` with `reject_code`: waiter removed, then the error
    /// returned.
    pub fn abort_register_application(&mut self, app_id: u16, reject_code: u32) -> (e: BleError)
        ensures
            e == BleError::StackRejected(reject_code),
            final(self).registry().registrations() == old(self).registry().registrations().remove(
                app_id,
            ),
            slots_unchanged(old(self).registry(), final(self).registry()),
            final(self).registry().anomalies() == old(self).registry().anomalies(),
            final(self).applications() == old(self).applications(),
            final(self).spec_device_name() == old(self).spec_device_name(),
    {
        let _ = self.registry.cancel_registration(app_id);
        BleError::StackRejected(reject_code)
    }

    /// Final step of "register application": settle what awaiting the
    /// receiver yielded. On success the stack's assigned interface handle is
    /// returned and the application object is recorded under it in the
    /// application table, where it stays for the life of the subsystem. On
    /// timeout the waiter pending under `app_id` is removed here.
    pub fn finish_register_application(&mut self, app_id: u16, application: A, wait: Option<u8>)
        -> (r: Result<u8, BleError>)
        ensures
            r == settled_registration(wait),
            wait matches Some(handle) ==> final(self).applications()
                == old(self).applications().insert(handle, application)
                && final(self).registry() == old(self).registry(),
            wait is None ==> final(self).applications() == old(self).applications()
                && final(self).registry().registrations()
                    == old(self).registry().registrations().remove(app_id)
                && slots_unchanged(old(self).registry(), final(self).registry())
                && final(self).registry().anomalies() == old(self).registry().anomalies(),
            final(self).spec_device_name() == old(self).spec_device_name(),
    {
        match wait {
            Some(handle) => {
                self.gatt_if_to_app.insert(handle, application);
                Ok(handle)
            },
            None => {
                let _ = self.registry.cancel_registration(app_id);
                Err(BleError::Timeout)
            },
        }
    }

    /// Callback entry: route one decoded event to the waiter it completes.
    /// Total and non-failing, as the stack's callback context requires; the
    /// application table is never touched from here.
    pub fn route_event(&mut self, ev: Event) -> (r: RouteOutcome)
        ensures
            routed(old(self).registry(), final(self).registry(), ev, r),
            final(self).applications() == old(self).applications(),
            final(self).spec_device_name() == old(self).spec_device_name(),
    {
        crate::router::route_event(&mut self.registry, ev)
    }

    /// Whether single slot `kind` currently holds a pending waiter.
    pub fn slot_pending(&self, kind: SlotKind) -> (b: bool)
        ensures
            b == self.registry().slot_occupied(kind),
    {
        self.registry.slot_pending(kind)
    }

    /// Whether a registration is currently pending under `app_id`.
    pub fn registration_pending(&self, app_id: u16) -> (b: bool)
        ensures
            b == self.registry().registrations().contains_key(app_id),
    {
        self.registry.registration_pending(app_id)
    }

    /// Operator-visible diagnostic: how many completions found no waiter.
    pub fn unroutable_completions(&self) -> (n: u64)
        ensures
            n == self.registry().anomalies(),
    {
        self.registry.unroutable_count()
    }

    /// Whether an application is recorded under interface handle `gatt_if`.
    pub fn has_application(&self, gatt_if: u8) -> (b: bool)
        ensures
            b == self.applications().contains_key(gatt_if),
    {
        self.gatt_if_to_app.contains_key(&gatt_if)
    }

    /// How many applications are recorded in the application table.
    pub fn application_count(&self) -> (n: usize)
        ensures
            n == self.applications().len(),
    {
        self.gatt_if_to_app.len()
    }
}

/// Every waiter that reaches its settling step resolves to exactly one of
/// success, stack-reported failure or timeout — never more than one and
/// never none, whatever the awaited value turned out to be. Together with
/// the reservation contracts (a failed reservation touches nothing) and the
/// teardown contracts (an aborted or timed-out request removes its waiter),
/// this is what keeps a reserved waiter from staying pending forever.
pub proof fn lemma_every_waiter_resolves(wait: Option<CommandOutcome>, reg_wait: Option<u8>)
    ensures
        ({
            let r = settled_outcome(wait);
            let succeeded = r is Ok;
            let failed = r matches Err(e) && e matches BleError::StackReportedFailure(_);
            let timed_out = r == Result::<(), BleError>::Err(BleError::Timeout);
            &&& succeeded || failed || timed_out
            &&& !(succeeded && failed)
            &&& !(succeeded && timed_out)
            &&& !(failed && timed_out)
        }),
        ({
            let r = settled_registration(reg_wait);
            let succeeded = r is Ok;
            let timed_out = r == Result::<u8, BleError>::Err(BleError::Timeout);
            &&& succeeded || timed_out
            &&& !(succeeded && timed_out)
        }),
{
}

} // verus!

use vstd::prelude::*;

use std::collections::HashMap;

use futures::channel::oneshot::channel;
use futures::channel::oneshot::Receiver;
use futures::channel::oneshot::Sender;

use crate::err::BleError;
use crate::event::CommandOutcome;

verus! {

broadcast use vstd::std_specs::hash::group_hash_axioms;

/// The single-slot request kinds. Each names one correlation point that can
/// hold at most one pending waiter at a time.
#[derive(Clone, Copy, Debug, PartialEq, Eq, Structural)]
pub enum SlotKind {
    /// "advertising data configured"
    AdvertisingData,
    /// "scan response configured"
    ScanResponseData,
    /// "advertising started"
    AdvertisingStart,
}

/// The saturating step of the anomaly counter.
pub open spec fn counted_once_more(c: u64) -> u64 {
    if c == 0xFFFF_FFFF_FFFF_FFFF {
        c
    } else {
        (c + 1) as u64
    }
}

/// Process-wide correlation state: for each kind of in-flight request, at
/// most one pending one-shot notifier, plus a keyed table for application
/// registrations (several may be pending at once, one per application id).
///
/// Mutated by the request façade (reserve, cancel) and by the dispatch router
/// (remove-and-complete); no other component touches it. The caller is
/// expected to guard it with a lock held only for the duration of one call,
/// never across a suspension point.
pub struct WaiterRegistry {
    adv_data: Option<Sender<CommandOutcome>>,
    scan_rsp_data: Option<Sender<CommandOutcome>>,
    adv_start: Option<Sender<CommandOutcome>>,
    reg_app: HashMap<u16, Sender<u8>>,
    anomaly_count: u64,
}

impl WaiterRegistry {
    /// The notifier stored under single slot `k`, if any.
    pub closed spec fn slot_sender(&self, k: SlotKind) -> Option<Sender<CommandOutcome>> {
        match k {
            SlotKind::AdvertisingData => self.adv_data,
            SlotKind::ScanResponseData => self.scan_rsp_data,
            SlotKind::AdvertisingStart => self.adv_start,
        }
    }

    /// Whether single slot `k` holds a pending waiter.
    pub open spec fn slot_occupied(&self, k: SlotKind) -> bool {
        self.slot_sender(k) is Some
    }

    /// The keyed registration table: application id to pending notifier.
    pub closed spec fn registrations(&self) -> Map<u16, Sender<u8>> {
        self.reg_app@
    }

    /// How many unroutable completions have been reported so far.
    pub closed spec fn anomalies(&self) -> u64 {
        self.anomaly_count
    }
}

/// Every single slot holds the same notifier in `post` as in `pre`.
pub open spec fn slots_unchanged(pre: WaiterRegistry, post: WaiterRegistry) -> bool {
    forall|j: SlotKind| #[trigger] post.slot_sender(j) == pre.slot_sender(j)
}

/// Everything but single slot `k` is the same in `post` as in `pre`: the
/// other slots, the keyed table and the anomaly counter.
pub open spec fn unchanged_but_slot(pre: WaiterRegistry, post: WaiterRegistry, k: SlotKind) -> bool {
    &&& forall|j: SlotKind| j != k ==> (#[trigger] post.slot_sender(j)) == pre.slot_sender(j)
    &&& post.registrations() == pre.registrations()
    &&& post.anomalies() == pre.anomalies()
}

impl WaiterRegistry {
    /// Create an empty registry: no pending waiter anywhere, no anomaly yet.
    pub fn new() -> (r: WaiterRegistry)
        ensures
            forall|j: SlotKind| (#[trigger] r.slot_sender(j)) is None,
            r.registrations() == Map::<u16, Sender<u8>>::empty(),
            r.anomalies() == 0,
    {
        WaiterRegistry {
            adv_data: None,
            scan_rsp_data: None,
            adv_start: None,
            reg_app: HashMap::new(),
            anomaly_count: 0,
        }
    }

    /// Reserve single slot `kind`: store a fresh notifier under it and return
    /// the paired receiver. An occupied slot is refused with `SlotBusy` and
    /// left exactly as it was — a pending waiter is never displaced.
    pub fn reserve_slot(&mut self, kind: SlotKind) -> (r: Result<
        Receiver<CommandOutcome>,
        BleError,
    >)
        ensures
            old(self).slot_occupied(kind) ==> (r matches Err(e) && e == BleError::SlotBusy)
                && *final(self) == *old(self),
            !old(self).slot_occupied(kind) ==> r is Ok && final(self).slot_occupied(kind)
                && unchanged_but_slot(*old(self), *final(self), kind),
    {
        let occupied = match kind {
            SlotKind::AdvertisingData => self.adv_data.is_some(),
            SlotKind::ScanResponseData => self.scan_rsp_data.is_some(),
            SlotKind::AdvertisingStart => self.adv_start.is_some(),
        };
        if occupied {
            return Err(BleError::SlotBusy);
        }
        let (tx, rx) = channel::<CommandOutcome>();
        match kind {
            SlotKind::AdvertisingData => {
                self.adv_data = Some(tx);
            },
            SlotKind::ScanResponseData => {
                self.scan_rsp_data = Some(tx);
            },
            SlotKind::AdvertisingStart => {
                self.adv_start = Some(tx);
            },
        }
        Ok(rx)
    }

    /// Remove-and-complete on single slot `kind`: take the stored notifier,
    /// if any, and signal it with `outcome`. With no waiter present the
    /// completion is unroutable: it is counted as an anomaly and `false` is
    /// reported, never an error — the caller may be the stack's own callback
    /// context, which must not fail.
    pub fn complete_slot(&mut self, kind: SlotKind, outcome: CommandOutcome) -> (delivered: bool)
        ensures
            delivered == old(self).slot_occupied(kind),
            old(self).slot_occupied(kind) ==> !final(self).slot_occupied(kind)
                && unchanged_but_slot(*old(self), *final(self), kind),
            !old(self).slot_occupied(kind) ==> slots_unchanged(*old(self), *final(self))
                && final(self).registrations() == old(self).registrations()
                && final(self).anomalies() == counted_once_more(old(self).anomalies()),
    {
        let taken = match kind {
            SlotKind::AdvertisingData => self.adv_data.take(),
            SlotKind::ScanResponseData => self.scan_rsp_data.take(),
            SlotKind::AdvertisingStart => self.adv_start.take(),
        };
        match taken {
            Some(tx) => {
                let _ = tx.send(outcome);
                true
            },
            None => {
                self.anomaly_count = if self.anomaly_count == 0xFFFF_FFFF_FFFF_FFFF {
                    self.anomaly_count
                } else {
                    self.anomaly_count + 1
                };
                false
            },
        }
    }

    /// Remove the waiter under single slot `kind` without completing it:
    /// teardown after a rejected command issuance, or after a timeout.
    /// Dropping the notifier wakes the paired receiver with a cancellation.
    pub fn cancel_slot(&mut self, kind: SlotKind) -> (was_pending: bool)
        ensures
            was_pending == old(self).slot_occupied(kind),
            !final(self).slot_occupied(kind),
            unchanged_but_slot(*old(self), *final(self), kind),
    {
        let taken = match kind {
            SlotKind::AdvertisingData => self.adv_data.take(),
            SlotKind::ScanResponseData => self.scan_rsp_data.take(),
            SlotKind::AdvertisingStart => self.adv_start.take(),
        };
        taken.is_some()
    }

    /// Reserve the keyed registration entry for `app_id`: store a fresh
    /// notifier under that id and return the paired receiver. An id with a
    /// registration already pending is refused with `SlotBusy` and the table
    /// is left exactly as it was; distinct ids never interfere.
    pub fn reserve_registration(&mut self, app_id: u16) -> (r: Result<Receiver<u8>, BleError>)
        ensures
            old(self).registrations().contains_key(app_id) ==> (r matches Err(e) && e
                == BleError::SlotBusy) && *final(self) == *old(self),
            !old(self).registrations().contains_key(app_id) ==> r is Ok
                && final(self).registrations().contains_key(app_id)
                && final(self).registrations().remove(app_id) == old(self).registrations()
                && slots_unchanged(*old(self), *final(self))
                && final(self).anomalies() == old(self).anomalies(),
    {
        if self.reg_app.contains_key(&app_id) {
            return Err(BleError::SlotBusy);
        }
        let (tx, rx) = channel::<u8>();
        self.reg_app.insert(app_id, tx);
        proof {
            assert(self.reg_app@.remove(app_id) =~= old(self).reg_app@);
        }
        Ok(rx)
    }

    /// Remove-and-complete on the keyed table: take the notifier pending
    /// under `app_id`, if any, and deliver the assigned interface handle to
    /// it. Entries under other ids are untouched. With no waiter present the
    /// completion is unroutable: counted, reported `false`, never an error.
    pub fn complete_registration(&mut self, app_id: u16, assigned_interface: u8) -> (delivered:
        bool)
        ensures
            delivered == old(self).registrations().contains_key(app_id),
            final(self).registrations() == old(self).registrations().remove(app_id),
            slots_unchanged(*old(self), *final(self)),
            old(self).registrations().contains_key(app_id) ==> final(self).anomalies() == old(
                self).anomalies(),
            !old(self).registrations().contains_key(app_id) ==> final(self).anomalies()
                == counted_once_more(old(self).anomalies()),
    {
        match self.reg_app.remove(&app_id) {
            Some(tx) => {
                let _ = tx.send(assigned_interface);
                true
            },
            None => {
                self.anomaly_count = if self.anomaly_count == 0xFFFF_FFFF_FFFF_FFFF {
                    self.anomaly_count
                } else {
                    self.anomaly_count + 1
                };
                false
            },
        }
    }

    /// Remove the waiter pending under `app_id` without completing it:
    /// teardown after a rejected command issuance, or after a timeout.
    pub fn cancel_registration(&mut self, app_id: u16) -> (was_pending: bool)
        ensures
            was_pending == old(self).registrations().contains_key(app_id),
            final(self).registrations() == old(self).registrations().remove(app_id),
            slots_unchanged(*old(self), *final(self)),
            final(self).anomalies() == old(self).anomalies(),
    {
        self.reg_app.remove(&app_id).is_some()
    }

    /// Operator-visible diagnostic: how many completions found no waiter.
    pub fn unroutable_count(&self) -> (n: u64)
        ensures
            n == self.anomalies(),
    {
        self.anomaly_count
    }

    /// Whether single slot `kind` currently holds a pending waiter.
    pub fn slot_pending(&self, kind: SlotKind) -> (b: bool)
        ensures
            b == self.slot_occupied(kind),
    {
        match kind {
            SlotKind::AdvertisingData => self.adv_data.is_some(),
            SlotKind::ScanResponseData => self.scan_rsp_data.is_some(),
            SlotKind::AdvertisingStart => self.adv_start.is_some(),
        }
    }

    /// Whether a registration is currently pending under `app_id`.
    pub fn registration_pending(&self, app_id: u16) -> (b: bool)
        ensures
            b == self.registrations().contains_key(app_id),
    {
        self.reg_app.contains_key(&app_id)
    }
}

/// Keyed independence: reservations under distinct application ids `a` and
/// `b` live side by side, and completing the one under `a` removes exactly
/// that entry — `b`'s notifier stays pending and is never cross-delivered.
/// The registration operations' contracts describe the table with exactly
/// these `Map` operations.
pub proof fn lemma_keyed_independence(
    m: Map<u16, Sender<u8>>,
    a: u16,
    b: u16,
    sa: Sender<u8>,
    sb: Sender<u8>,
)
    requires
        a != b,
        !m.contains_key(a),
        !m.contains_key(b),
    ensures
        ({
            let both = m.insert(a, sa).insert(b, sb);
            &&& both[a] == sa
            &&& both[b] == sb
            &&& both.remove(a) == m.insert(b, sb)
            &&& both.remove(b) == m.insert(a, sa)
        }),
{
    assert(m.insert(a, sa).insert(b, sb).remove(a) =~= m.insert(b, sb));
    assert(m.insert(a, sa).insert(b, sb).remove(b) =~= m.insert(a, sa));
}

} // verus!

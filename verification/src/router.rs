use vstd::prelude::*;

use crate::event::Event;
use crate::event::outcome_of_status;
use crate::registry::SlotKind;
use crate::registry::WaiterRegistry;
use crate::registry::counted_once_more;
use crate::registry::slots_unchanged;
use crate::registry::unchanged_but_slot;

verus! {

/// What routing one decoded event did.
#[derive(Clone, Copy, Debug, PartialEq, Eq, Structural)]
pub enum RouteOutcome {
    /// A waiter was pending and the result was handed to it.
    Delivered,
    /// A completion arrived with no matching waiter: an operator-visible
    /// anomaly (the request timed out already, or the stack sent a duplicate),
    /// counted by the registry and otherwise harmless.
    Unroutable,
    /// The event is not modeled by this core; nothing to route.
    Ignored,
}

/// Routing a completion against single slot `k`: if a waiter was pending it
/// is removed and signalled, else the completion is counted as unroutable;
/// nothing else in the registry moves either way.
pub open spec fn slot_routed(
    pre: WaiterRegistry,
    post: WaiterRegistry,
    k: SlotKind,
    r: RouteOutcome,
) -> bool {
    if pre.slot_occupied(k) {
        &&& r == RouteOutcome::Delivered
        &&& !post.slot_occupied(k)
        &&& unchanged_but_slot(pre, post, k)
    } else {
        &&& r == RouteOutcome::Unroutable
        &&& slots_unchanged(pre, post)
        &&& post.registrations() == pre.registrations()
        &&& post.anomalies() == counted_once_more(pre.anomalies())
    }
}

/// Routing a registration completion for `app_id`: exactly that entry leaves
/// the keyed table; entries under other ids and all single slots stay put.
pub open spec fn keyed_routed(
    pre: WaiterRegistry,
    post: WaiterRegistry,
    app_id: u16,
    r: RouteOutcome,
) -> bool {
    &&& post.registrations() == pre.registrations().remove(app_id)
    &&& slots_unchanged(pre, post)
    &&& if pre.registrations().contains_key(app_id) {
        r == RouteOutcome::Delivered && post.anomalies() == pre.anomalies()
    } else {
        r == RouteOutcome::Unroutable && post.anomalies() == counted_once_more(pre.anomalies())
    }
}

/// The full effect of routing `ev`: which waiter (if any) it completes and
/// how the report `r` relates to the registry's prior state.
pub open spec fn routed(
    pre: WaiterRegistry,
    post: WaiterRegistry,
    ev: Event,
    r: RouteOutcome,
) -> bool {
    match ev {
        Event::AdvertisingDatasetComplete { .. } => slot_routed(
            pre,
            post,
            SlotKind::AdvertisingData,
            r,
        ),
        Event::ScanResponseDatasetComplete { .. } => slot_routed(
            pre,
            post,
            SlotKind::ScanResponseData,
            r,
        ),
        Event::AdvertisingStartComplete { .. } => slot_routed(
            pre,
            post,
            SlotKind::AdvertisingStart,
            r,
        ),
        Event::ApplicationRegistered { app_id, .. } => keyed_routed(pre, post, app_id, r),
        Event::Unhandled { .. } => r == RouteOutcome::Ignored && post == pre,
    }
}

/// Dispatch one decoded event: route it to the remove-and-complete call of
/// the waiter it belongs to. Runs inside the radio stack's own callback
/// context, so it is total and non-failing: every variant takes exactly one
/// branch, a completion with no waiter is counted and reported `Unroutable`
/// (never raised), and `Unhandled` events are ignored without being treated
/// as errors.
pub fn route_event(registry: &mut WaiterRegistry, ev: Event) -> (r: RouteOutcome)
    ensures
        routed(*old(registry), *final(registry), ev, r),
{
    match ev {
        Event::AdvertisingDatasetComplete { status } => {
            let outcome = outcome_of_status(status);
            if registry.complete_slot(SlotKind::AdvertisingData, outcome) {
                RouteOutcome::Delivered
            } else {
                RouteOutcome::Unroutable
            }
        },
        Event::ScanResponseDatasetComplete { status } => {
            let outcome = outcome_of_status(status);
            if registry.complete_slot(SlotKind::ScanResponseData, outcome) {
                RouteOutcome::Delivered
            } else {
                RouteOutcome::Unroutable
            }
        },
        Event::AdvertisingStartComplete { status } => {
            let outcome = outcome_of_status(status);
            if registry.complete_slot(SlotKind::AdvertisingStart, outcome) {
                RouteOutcome::Delivered
            } else {
                RouteOutcome::Unroutable
            }
        },
        Event::ApplicationRegistered { app_id, assigned_interface } => {
            if registry.complete_registration(app_id, assigned_interface) {
                RouteOutcome::Delivered
            } else {
                RouteOutcome::Unroutable
            }
        },
        Event::Unhandled { .. } => RouteOutcome::Ignored,
    }
}

/// An unroutable completion is non-fatal and observable: routing any
/// completion event against a registry with no matching waiter leaves every
/// waiter exactly as it was and raises only the anomaly counter.
pub proof fn lemma_unroutable_is_nonfatal(
    pre: WaiterRegistry,
    post: WaiterRegistry,
    ev: Event,
    r: RouteOutcome,
    k: SlotKind,
)
    requires
        routed(pre, post, ev, r),
        match ev {
            Event::AdvertisingDatasetComplete { .. } => k == SlotKind::AdvertisingData
                && !pre.slot_occupied(k),
            Event::ScanResponseDatasetComplete { .. } => k == SlotKind::ScanResponseData
                && !pre.slot_occupied(k),
            Event::AdvertisingStartComplete { .. } => k == SlotKind::AdvertisingStart
                && !pre.slot_occupied(k),
            Event::ApplicationRegistered { app_id, .. } => !pre.registrations().contains_key(
                app_id,
            ),
            Event::Unhandled { .. } => false,
        },
    ensures
        r == RouteOutcome::Unroutable,
        slots_unchanged(pre, post),
        post.registrations() == pre.registrations(),
        post.anomalies() == counted_once_more(pre.anomalies()),
{
    match ev {
        Event::ApplicationRegistered { app_id, .. } => {
            assert(pre.registrations().remove(app_id) =~= pre.registrations());
        },
        _ => {},
    }
}

} // verus!

use vstd::prelude::*;

verus! {

/// Raw link-layer (GAP) event code: advertising data set complete.
pub const GAP_ADV_DATA_SET_COMPLETE: u32 = 0;

/// Raw link-layer (GAP) event code: scan-response data set complete.
pub const GAP_SCAN_RSP_DATA_SET_COMPLETE: u32 = 1;

/// Raw link-layer (GAP) event code: advertising start complete.
pub const GAP_ADV_START_COMPLETE: u32 = 6;

/// Raw service-layer (GATT server) event code: application registered.
pub const GATTS_REGISTER: u32 = 0;

/// The status code with which the stack reports success.
pub const STATUS_SUCCESS: u32 = 0;

/// An owned, safe variant of one radio-stack callback event.
///
/// A value of this type is built fresh on every callback invocation by copying
/// the needed fields out of the stack's transient payload; it never borrows
/// from that payload. Raw event codes the core does not model decode to
/// `Unhandled`, never to an error.
#[derive(Clone, Copy, Debug, PartialEq, Eq, Structural)]
pub enum Event {
    /// The "set advertisement data" command finished with `status`.
    AdvertisingDatasetComplete { status: u32 },
    /// The "set scan-response data" command finished with `status`.
    ScanResponseDatasetComplete { status: u32 },
    /// The "start advertising" command finished with `status`.
    AdvertisingStartComplete { status: u32 },
    /// The stack registered the application chosen as `app_id` and assigned it
    /// the runtime interface handle `assigned_interface`.
    ApplicationRegistered { app_id: u16, assigned_interface: u8 },
    /// Any event code the core does not model; kept only for diagnostics.
    Unhandled { code: u32 },
}

/// The result of a completed slot command, as delivered to its waiter.
#[derive(Clone, Copy, Debug, PartialEq, Eq, Structural)]
pub enum CommandOutcome {
    /// The stack reported success.
    Success,
    /// The stack reported this non-success status code.
    StackFailure(u32),
}

/// What `decode_gap_event` returns, for every representable input.
pub open spec fn spec_decode_gap_event(code: u32, status: u32) -> Event {
    if code == GAP_ADV_DATA_SET_COMPLETE {
        Event::AdvertisingDatasetComplete { status }
    } else if code == GAP_SCAN_RSP_DATA_SET_COMPLETE {
        Event::ScanResponseDatasetComplete { status }
    } else if code == GAP_ADV_START_COMPLETE {
        Event::AdvertisingStartComplete { status }
    } else {
        Event::Unhandled { code }
    }
}

/// What `decode_gatts_event` returns, for every representable input.
pub open spec fn spec_decode_gatts_event(code: u32, assigned_interface: u8, app_id: u16) -> Event {
    if code == GATTS_REGISTER {
        Event::ApplicationRegistered { app_id, assigned_interface }
    } else {
        Event::Unhandled { code }
    }
}

/// What `outcome_of_status` returns: success exactly for `STATUS_SUCCESS`.
pub open spec fn spec_outcome_of_status(status: u32) -> CommandOutcome {
    if status == STATUS_SUCCESS {
        CommandOutcome::Success
    } else {
        CommandOutcome::StackFailure(status)
    }
}

/// Decode one link-layer (GAP) callback event.
///
/// `code` is the raw event-kind enumerator; `status` is the completion status
/// copied out of the payload (meaningful for the three modeled codes). Total:
/// every code yields a variant, unknown codes yield `Event::Unhandled`.
pub fn decode_gap_event(code: u32, status: u32) -> (ev: Event)
    ensures
        ev == spec_decode_gap_event(code, status),
{
    if code == GAP_ADV_DATA_SET_COMPLETE {
        Event::AdvertisingDatasetComplete { status }
    } else if code == GAP_SCAN_RSP_DATA_SET_COMPLETE {
        Event::ScanResponseDatasetComplete { status }
    } else if code == GAP_ADV_START_COMPLETE {
        Event::AdvertisingStartComplete { status }
    } else {
        Event::Unhandled { code }
    }
}

/// Decode one service-layer (GATT server) callback event.
///
/// `code` is the raw event-kind enumerator; `assigned_interface` is the
/// runtime interface handle the stack passed alongside the payload; `app_id`
/// is the application id copied out of the payload. Total over every input.
pub fn decode_gatts_event(code: u32, assigned_interface: u8, app_id: u16) -> (ev: Event)
    ensures
        ev == spec_decode_gatts_event(code, assigned_interface, app_id),
{
    if code == GATTS_REGISTER {
        Event::ApplicationRegistered { app_id, assigned_interface }
    } else {
        Event::Unhandled { code }
    }
}

/// Map a raw completion status to the outcome delivered to a waiter.
pub fn outcome_of_status(status: u32) -> (o: CommandOutcome)
    ensures
        o == spec_outcome_of_status(status),
{
    if status == STATUS_SUCCESS {
        CommandOutcome::Success
    } else {
        CommandOutcome::StackFailure(status)
    }
}

/// Decoder totality: every representable event-kind input decodes to a
/// defined variant, never an error or a partial value; the catch-all
/// `Unhandled` is taken exactly for the codes outside the modeled set.
pub proof fn lemma_decoder_total(code: u32, status: u32, assigned_interface: u8, app_id: u16)
    ensures
        spec_decode_gap_event(code, status) is Unhandled <==> (code != GAP_ADV_DATA_SET_COMPLETE
            && code != GAP_SCAN_RSP_DATA_SET_COMPLETE && code != GAP_ADV_START_COMPLETE),
        spec_decode_gatts_event(code, assigned_interface, app_id) is Unhandled <==> code
            != GATTS_REGISTER,
        code == GAP_ADV_DATA_SET_COMPLETE ==> spec_decode_gap_event(code, status)
            == (Event::AdvertisingDatasetComplete { status }),
        code == GAP_SCAN_RSP_DATA_SET_COMPLETE ==> spec_decode_gap_event(code, status)
            == (Event::ScanResponseDatasetComplete { status }),
        code == GAP_ADV_START_COMPLETE ==> spec_decode_gap_event(code, status)
            == (Event::AdvertisingStartComplete { status }),
        code == GATTS_REGISTER ==> spec_decode_gatts_event(code, assigned_interface, app_id)
            == (Event::ApplicationRegistered { app_id, assigned_interface }),
{
}

} // verus!

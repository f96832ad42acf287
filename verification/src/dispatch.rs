//! The event dispatcher's per-item decision.
//!
//! The intake loop pulls one item at a time from the event stream. For
//! each item it takes exactly one step: a delivered event is handed to an
//! independent unit of work, a delivery error is recorded as a warning.
//! Neither step ever terminates the loop — only the stream ending does —
//! so one bad item never costs the items after it.

use crate::policy::InboundEvent;
use vstd::prelude::*;

verus! {

/// One item pulled from the event stream: a delivered event, or a
/// delivery error in its place.
pub enum StreamItem {
    Delivered(InboundEvent),
    DeliveryError { detail: String },
}

/// The step the dispatcher takes for one item. There is no terminating
/// step: the loop continues after every item.
pub enum IntakeStep {
    Dispatch(InboundEvent),
    RecordWarning { detail: String },
}

/// The step owed for an item: dispatch what was delivered, warn about
/// what was not.
pub open spec fn spec_intake_step(item: StreamItem) -> IntakeStep {
    match item {
        StreamItem::Delivered(event) => IntakeStep::Dispatch(event),
        StreamItem::DeliveryError { detail } => IntakeStep::RecordWarning { detail },
    }
}

/// Decides the dispatcher's step for one stream item.
pub fn intake_step(item: StreamItem) -> (r: IntakeStep)
    ensures
        r == spec_intake_step(item),
        r is Dispatch <==> item is Delivered,
{
    match item {
        StreamItem::Delivered(event) => IntakeStep::Dispatch(event),
        StreamItem::DeliveryError { detail } => IntakeStep::RecordWarning { detail },
    }
}

/// A delivery error only ever yields a warning — never a dispatch, and
/// never an end to intake — and the next delivered event is dispatched
/// exactly as it would have been with no error before it.
pub proof fn lemma_delivery_error_does_not_stop_intake(bad: StreamItem, next: InboundEvent)
    requires
        bad is DeliveryError,
    ensures
        spec_intake_step(bad) is RecordWarning,
        spec_intake_step(StreamItem::Delivered(next)) == IntakeStep::Dispatch(next),
{
}

} // verus!

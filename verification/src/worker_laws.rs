//! What holds of a worker's receiving, however the messaging service answers.
use crate::worker;
use vstd::prelude::*;

verus! {

/// Whether a receive gave a batch of messages.
pub open spec fn gave_batch(received: worker::Received) -> bool {
    match received {
        worker::Received::Failed { .. } => false,
        worker::Received::Answered { status, body, answer } => crate::web::success(status) && answer
            is Some,
    }
}

/// The batch that a receive gave; nothing where it gave none.
pub open spec fn batch_of(received: worker::Received) -> Seq<crate::queue::ReceivedMessage> {
    match received {
        worker::Received::Answered { status, body, answer: Some(a) } => if crate::web::success(
            status,
        ) {
            crate::queue::counted_messages(a)
        } else {
            Seq::empty()
        },
        _ => Seq::empty(),
    }
}

/// All the batches that a series of receives gave, one after the other.
pub open spec fn batches(series: Seq<worker::Received>) -> Seq<crate::queue::ReceivedMessage>
    decreases series.len(),
{
    if series.len() == 0 {
        Seq::empty()
    } else {
        batches(series.drop_last()) + batch_of(series.last())
    }
}

/// The messages that are given to handlers over a series of receives, in order.
pub open spec fn handed_out(series: Seq<worker::Received>) -> Seq<crate::queue::ReceivedMessage>
    decreases series.len(),
{
    if series.len() == 0 {
        Seq::empty()
    } else {
        handed_out(series.drop_last()) + match worker::turn_of(series.last()) {
            worker::TurnView::Dispatch { messages } => messages,
            worker::TurnView::BackOff { .. } => Seq::empty(),
        }
    }
}

/// Every message of every batch is given to a handler exactly once and in order, whatever the other
/// receives came to; after a receive that gave no batch, and after no other, the worker pauses for two
/// seconds.
pub proof fn law_every_message_is_handled(series: Seq<worker::Received>)
    ensures
        handed_out(series) == batches(series),
        forall|i: int|
            0 <= i < series.len() ==> match worker::turn_of(#[trigger] series[i]) {
                worker::TurnView::Dispatch { messages } => gave_batch(series[i]) && messages
                    == batch_of(series[i]),
                worker::TurnView::BackOff { error, secs } => !gave_batch(series[i]) && secs == 2,
            },
    decreases series.len(),
{
    if series.len() > 0 {
        law_every_message_is_handled(series.drop_last());
        assert forall|i: int| 0 <= i < series.len() implies match worker::turn_of(
            #[trigger] series[i],
        ) {
            worker::TurnView::Dispatch { messages } => gave_batch(series[i]) && messages
                == batch_of(series[i]),
            worker::TurnView::BackOff { error, secs } => !gave_batch(series[i]) && secs == 2,
        } by {}
    }
}

} // verus!

use vstd::prelude::*;

use crate::newsroomcore::newsroomstate::NewsroomTransitions;
use tokio::sync::mpsc::{unbounded_channel, UnboundedReceiver, UnboundedSender};

verus! {

#[verifier::external_type_specification]
#[verifier::external_body]
#[verifier::reject_recursive_types(T)]
pub struct ExUnboundedSender<T>(UnboundedSender<T>);

#[verifier::external_type_specification]
#[verifier::external_body]
#[verifier::reject_recursive_types(T)]
pub struct ExUnboundedReceiver<T>(UnboundedReceiver<T>);

/// Relies on tokio::sync::mpsc::unbounded_channel: returns the two halves
/// of a fresh unbounded multi-producer single-consumer queue.
#[verifier::external_body]
pub(crate) fn new_transition_channel() -> (UnboundedSender<NewsroomTransitions>, UnboundedReceiver<
    NewsroomTransitions,
>) {
    unbounded_channel()
}

/// Relies on tokio::sync::mpsc::UnboundedSender::send: enqueues the
/// transition and reports true, unless the receiving half is already
/// closed; never blocks. Which of the two happens depends on the other
/// half, so nothing more is promised.
#[verifier::external_body]
pub(crate) fn send_transition(
    tx: &UnboundedSender<NewsroomTransitions>,
    t: NewsroomTransitions,
) -> bool {
    tx.send(t).is_ok()
}

/// Relies on tokio::sync::mpsc::UnboundedReceiver::try_recv: hands back the
/// transition at the head of the queue if one is waiting, without blocking.
/// What arrives there depends on concurrent senders, so nothing more is
/// promised.
#[verifier::external_body]
pub(crate) fn try_recv_transition(
    rx: &mut UnboundedReceiver<NewsroomTransitions>,
) -> Option<NewsroomTransitions> {
    rx.try_recv().ok()
}

} // verus!

//! The channels that carry answers and events to the tasks waiting for them.
//!
//! The channels come from tokio; the library only creates them, keeps their
//! sending halves and hands a value to a one-shot sender. What travels
//! through them afterwards is not modelled.

use vstd::prelude::*;
use tokio::sync::{mpsc, oneshot};

use crate::types::response::{OneShotResponse, WSEvent};

verus! {

/// The sending half of a bounded tokio channel.
#[verifier::external_type_specification]
#[verifier::external_body]
#[verifier::reject_recursive_types(T)]
pub struct ExMpscSender<T>(mpsc::Sender<T>);

/// The receiving half of a bounded tokio channel.
#[verifier::external_type_specification]
#[verifier::external_body]
#[verifier::reject_recursive_types(T)]
pub struct ExMpscReceiver<T>(mpsc::Receiver<T>);

/// The sending half of a tokio one-shot channel.
#[verifier::external_type_specification]
#[verifier::external_body]
#[verifier::reject_recursive_types(T)]
pub struct ExOneshotSender<T>(oneshot::Sender<T>);

/// The receiving half of a tokio one-shot channel.
#[verifier::external_type_specification]
#[verifier::external_body]
#[verifier::reject_recursive_types(T)]
pub struct ExOneshotReceiver<T>(oneshot::Receiver<T>);

/// The error that a one-shot receiver yields when its sender was dropped
/// without sending; declared because the receiver, a future, can yield it.
#[verifier::external_type_specification]
#[verifier::external_body]
pub struct ExOneshotRecvError(oneshot::error::RecvError);

/// `tx` sends into the channel that `rx` receives from: what is sent on
/// `tx` (or on a clone of it) arrives at `rx`.
pub uninterp spec fn feeds(tx: mpsc::Sender<WSEvent>, rx: mpsc::Receiver<WSEvent>) -> bool;

/// `tx` is the sending half of the one-shot channel that `rx` receives from:
/// a value sent on `tx` is what `rx` yields.
pub uninterp spec fn answers(tx: oneshot::Sender<OneShotResponse>, rx: oneshot::Receiver<OneShotResponse>) -> bool;

/// Calls `tokio::sync::mpsc::channel` for events. It creates a bounded
/// channel and returns its two halves, so the sender feeds the receiver. It
/// panics when the bound is zero or above the semaphore's maximum of
/// `usize::MAX >> 3` permits, so the bound must lie between the two.
#[verifier::external_body]
pub(crate) fn event_channel(buffer: usize) -> (r: (mpsc::Sender<WSEvent>, mpsc::Receiver<WSEvent>))
    requires
        0 < buffer <= usize::MAX / 8,
    ensures
        feeds(r.0, r.1),
{
    mpsc::channel(buffer)
}

/// Calls `tokio::sync::oneshot::channel` for answers. It always returns, and
/// the sending half it returns belongs to the receiving half it returns.
#[verifier::external_body]
pub(crate) fn answer_channel() -> (r: (oneshot::Sender<OneShotResponse>, oneshot::Receiver<OneShotResponse>))
    ensures
        answers(r.0, r.1),
{
    oneshot::channel()
}

/// `Clone` on `tokio::sync::mpsc::Sender` makes one more handle on the same
/// channel (it clones the shared reference to the channel), so the clone
/// stands for the same sender as the original.
pub assume_specification<T>[ <mpsc::Sender<T> as Clone>::clone ](sender: &mpsc::Sender<T>) -> (r: mpsc::Sender<T>)
    ensures
        r == *sender,
;

} // verus!

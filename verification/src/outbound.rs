//! The outbound queue: the unbounded multiple-producer channel over which the
//! core pushes messages to the consumer. Sends never block; a gone receiver
//! makes the send report failure, which callers swallow.
use vstd::prelude::*;

use crate::device::DeviceData;

verus! {

#[verifier::external_type_specification]
#[verifier::external_body]
#[verifier::reject_recursive_types(T)]
pub struct ExUnboundedSender<T>(tokio::sync::mpsc::UnboundedSender<T>);

/// Relies on tokio::sync::mpsc::UnboundedSender::send: pushes one message
/// onto the unbounded queue without blocking, delivering it to the receiver
/// in send order, and reports failure exactly when the receive half is gone.
#[verifier::external_body]
pub(crate) fn send_message(
    tx: &tokio::sync::mpsc::UnboundedSender<DeviceData>,
    msg: &DeviceData,
) -> (delivered: bool) {
    tx.send(msg.clone()).is_ok()
}

} // verus!

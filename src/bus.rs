use std::sync::Arc;
use std::sync::atomic::AtomicU64;
use tokio::sync::broadcast::{Receiver, Sender};
use vstd::prelude::*;

verus! {

#[verifier::external_type_specification]
#[verifier::external_body]
#[verifier::reject_recursive_types(T)]
pub struct ExSender<T>(Sender<T>);

#[verifier::external_type_specification]
#[verifier::external_body]
#[verifier::reject_recursive_types(T)]
pub struct ExReceiver<T>(Receiver<T>);

/// Relies on tokio's `broadcast::Sender::send`, which hands the packet to
/// every receiver subscribed at the time and fails only when none is active.
/// A packet published with no subscriber is dropped; that is no error here.
#[verifier::external_body]
pub(crate) fn send_packet(sender: &Sender<Vec<u8>>, packet: Vec<u8>) -> (delivered: bool) {
    sender.send(packet).is_ok()
}

/// Relies on tokio's `broadcast::Sender::subscribe`: the new receiver sees
/// every packet sent after this call.
#[verifier::external_body]
pub(crate) fn subscribe(sender: &Sender<Vec<u8>>) -> Receiver<Vec<u8>> {
    sender.subscribe()
}

/// Relies on tokio's `broadcast::Receiver::try_recv`: the next pending packet,
/// or `None` when nothing is pending, the receiver lagged, or the bus closed.
#[verifier::external_body]
pub(crate) fn try_receive(receiver: &mut Receiver<Vec<u8>>) -> Option<Vec<u8>> {
    receiver.try_recv().ok()
}

/// Relies on tokio's `Clone` for `broadcast::Sender`: another writer handle
/// on the same bus.
#[verifier::external_body]
pub(crate) fn clone_sender(sender: &Sender<Vec<u8>>) -> Sender<Vec<u8>> {
    sender.clone()
}

/// Relies on std's `Clone` for `Arc`: another handle on the same counter.
#[verifier::external_body]
pub(crate) fn share_counter(counter: &Arc<AtomicU64>) -> Arc<AtomicU64> {
    Arc::clone(counter)
}

} // verus!

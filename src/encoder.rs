use tokio::sync::broadcast::{Receiver, Sender};
use vstd::prelude::*;

use crate::bus::{subscribe, try_receive};
use crate::codec::{decode_encoder_event, spec_encoder_event, EncoderEvent};
use crate::lifecycle::{is_running_value, Lifecycle, RunToken};

verus! {

/// Milliseconds between two receive attempts.
pub const ENCODER_INTERVAL_MS: u64 = 100;

/// What one iteration of an encoder worker found.
#[derive(Debug, PartialEq, Eq)]
pub enum EncoderPoll {
    /// The worker's activation has been stopped: nothing was received.
    Stopped,
    /// No packet was pending.
    Idle,
    /// A packet arrived; `event` is the reaction to it.
    Received { packet: Vec<u8>, event: Option<EncoderEvent> },
}

/// Reacts to encoder changes reported by the device on the inbound bus.
pub struct EncoderConsumer {
    device_to_host_sender: Sender<Vec<u8>>,
    lifecycle: Lifecycle,
}

/// The worker of one activation of an [`EncoderConsumer`]: its subscription
/// to the inbound bus.
pub struct EncoderWorker {
    receiver: Receiver<Vec<u8>>,
    token: RunToken,
}

impl EncoderConsumer {
    /// The handle on the bus this component is bound to.
    pub closed spec fn sender(&self) -> Sender<Vec<u8>> {
        self.device_to_host_sender
    }

    /// A stopped consumer of the bus that `device_to_host_sender` writes to.
    pub fn new(device_to_host_sender: Sender<Vec<u8>>) -> (r: EncoderConsumer)
        ensures
            r.sender() == device_to_host_sender,
    {
        EncoderConsumer { device_to_host_sender, lifecycle: Lifecycle::new() }
    }

    /// Begins an activation; returns the worker to run, subscribed from now
    /// on, or `None` when the consumer is already running.
    pub fn start(&self) -> (r: Option<EncoderWorker>)
        ensures
            r matches Some(w) ==> is_running_value(w.activation()),
    {
        match self.lifecycle.start() {
            Some(token) => Some(
                EncoderWorker { receiver: subscribe(&self.device_to_host_sender), token },
            ),
            None => None,
        }
    }

    /// Ends the current activation; its worker stops at its next poll.
    pub fn stop(&self) {
        self.lifecycle.stop();
    }

    /// Whether an activation is current.
    pub fn is_running(&self) -> bool {
        self.lifecycle.is_running()
    }
}

impl EncoderWorker {
    /// The activation this worker belongs to.
    pub closed spec fn activation(&self) -> u64 {
        self.token.activation()
    }

    /// Whether the activation of this worker is still the current one; once
    /// it is `false` the worker reacts to nothing more.
    pub fn is_current(&self) -> bool {
        self.token.is_current()
    }

    /// The reaction to one inbound packet: the encoder event to show when its
    /// tag is `EncoderMode`; any other packet is ignored.
    pub fn react(packet: &Vec<u8>) -> (r: Option<EncoderEvent>)
        ensures
            r == spec_encoder_event(packet@),
    {
        decode_encoder_event(packet)
    }

    /// One iteration of the worker: `Stopped` once its activation has been
    /// stopped; otherwise the next pending packet, if any, with the reaction
    /// to it.
    pub fn poll(&mut self) -> (r: EncoderPoll)
        ensures
            r matches EncoderPoll::Received { packet, event } ==> event == spec_encoder_event(
                packet@,
            ),
    {
        if !self.token.is_current() {
            return EncoderPoll::Stopped;
        }
        match try_receive(&mut self.receiver) {
            Some(packet) => {
                let event = Self::react(&packet);
                EncoderPoll::Received { packet, event }
            },
            None => EncoderPoll::Idle,
        }
    }
}

} // verus!

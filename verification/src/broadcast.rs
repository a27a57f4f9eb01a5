//! Live connections and the channels that fan frames out to them.

use crate::dash::{channel_ids, channels_get, channels_insert, channels_len, channels_new, channels_remove};
use crate::ids::{is_random_uuid, random_uuid};
use dashmap::DashMap;
use tokio::sync::broadcast::error::SendError;
use tokio::sync::broadcast::{Receiver, Sender};
use vstd::prelude::*;

verus! {

/// How many frames a channel retains for a receiver that has fallen behind.
/// A receiver further behind than this loses the oldest frames; the sender
/// is never held up.
pub const FRAME_BACKLOG: usize = 64;

/// What became of a frame handed to a connection's channel.
#[derive(Debug, Clone, Copy, PartialEq, Eq, Structural)]
pub enum Delivery {
    /// The frame was queued for this many receivers, at least one.
    Delivered { receivers: usize },
    /// The channel has no receiver at the moment. The frame is dropped.
    NoSubscriber,
    /// No connection is registered under the identifier.
    NotOpen,
}

/// What a channel's answer to a send means for the publisher: a count of
/// receivers is a delivery, and a frame handed back is a frame dropped for
/// want of a receiver. Neither is a failure.
pub open spec fn delivery_of(sent: Result<usize, SendError<Vec<u8>>>) -> Delivery {
    match sent {
        Ok(receivers) => Delivery::Delivered { receivers },
        Err(_) => Delivery::NoSubscriber,
    }
}

/// Reads a channel's answer to a send.
pub fn read_delivery(sent: Result<usize, SendError<Vec<u8>>>) -> (delivery: Delivery)
    ensures
        delivery == delivery_of(sent),
{
    match sent {
        Ok(receivers) => Delivery::Delivered { receivers },
        Err(_) => Delivery::NoSubscriber,
    }
}

/// Hands `frame` to `sender`'s channel without waiting for any receiver.
pub fn publish(sender: &Sender<Vec<u8>>, frame: Vec<u8>) -> (delivery: Delivery)
    ensures
        delivery != Delivery::NotOpen,
        delivery matches Delivery::Delivered { receivers } ==> receivers >= 1,
{
    read_delivery(sender.send(frame))
}

/// Maps the identifier of each open live connection to the sender of its
/// channel.
#[derive(Debug)]
pub struct BroadcastRegistry {
    channels: DashMap<u128, Sender<Vec<u8>>>,
}

impl View for BroadcastRegistry {
    type V = Set<u128>;

    closed spec fn view(&self) -> Set<u128> {
        channel_ids(self.channels)
    }
}

impl BroadcastRegistry {
    /// A registry is well formed when it holds finitely many connections.
    pub open spec fn wf(&self) -> bool {
        self@.finite()
    }

    /// A registry without connections.
    pub fn new() -> (registry: BroadcastRegistry)
        ensures
            registry.wf(),
            registry@ == Set::<u128>::empty(),
    {
        BroadcastRegistry { channels: channels_new() }
    }

    /// Opens a channel for the connection `id` and registers its sender.
    /// Returns the first receiver of the channel: the connection's stream of
    /// frames. A connection already registered under `id` loses its channel
    /// to the new one.
    pub fn register(&mut self, id: u128) -> (stream: Receiver<Vec<u8>>)
        requires
            old(self).wf(),
        ensures
            final(self).wf(),
            final(self)@ == old(self)@.insert(id),
    {
        let (sender, stream) = tokio::sync::broadcast::channel::<Vec<u8>>(FRAME_BACKLOG);
        channels_insert(&mut self.channels, id, sender);
        stream
    }

    /// Opens a live connection under a freshly drawn identifier and returns
    /// the identifier with the connection's stream of frames.
    pub fn open_live_connection(&mut self) -> (opened: (u128, Receiver<Vec<u8>>))
        requires
            old(self).wf(),
        ensures
            final(self).wf(),
            is_random_uuid(opened.0),
            final(self)@ == old(self)@.insert(opened.0),
    {
        let id = random_uuid();
        let stream = self.register(id);
        (id, stream)
    }

    /// Another handle to the channel of connection `id`, to send on after
    /// the registry has been let go.
    pub fn sender(&self, id: u128) -> (found: Option<Sender<Vec<u8>>>)
        ensures
            found.is_some() == self@.contains(id),
    {
        channels_get(&self.channels, id)
    }

    /// A further receiver on the channel of connection `id`. It sees the
    /// frames published from now on.
    pub fn subscribe(&self, id: u128) -> (stream: Option<Receiver<Vec<u8>>>)
        ensures
            stream.is_some() == self@.contains(id),
    {
        match channels_get(&self.channels, id) {
            Some(sender) => Some(sender.subscribe()),
            None => None,
        }
    }

    /// Publishes `frame` to connection `id`, best effort: the frame goes to
    /// the receivers there are, and with none it is dropped.
    pub fn publish_ping(&self, id: u128, frame: Vec<u8>) -> (delivery: Delivery)
        ensures
            delivery == Delivery::NotOpen <==> !self@.contains(id),
            delivery matches Delivery::Delivered { receivers } ==> receivers >= 1,
    {
        match channels_get(&self.channels, id) {
            Some(sender) => publish(&sender, frame),
            None => Delivery::NotOpen,
        }
    }

    /// Removes connection `id` and lets go of its sender. Says whether the
    /// connection was registered.
    pub fn close(&mut self, id: u128) -> (was_open: bool)
        requires
            old(self).wf(),
        ensures
            final(self).wf(),
            final(self)@ == old(self)@.remove(id),
            was_open == old(self)@.contains(id),
    {
        channels_remove(&mut self.channels, id).is_some()
    }

    /// Whether connection `id` is registered.
    pub fn is_open(&self, id: u128) -> (open: bool)
        ensures
            open == self@.contains(id),
    {
        channels_get(&self.channels, id).is_some()
    }

    /// The number of registered connections.
    pub fn len(&self) -> (count: usize)
        ensures
            count == self@.len(),
    {
        channels_len(&self.channels)
    }
}

} // verus!

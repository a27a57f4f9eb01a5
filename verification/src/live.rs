//! The life of one live connection: connecting, open, closed.
//!
//! The task that serves a connection waits for the upgrade, for the ping
//! timer and for the transport. Each time one of them fires it reports the
//! event here; what follows from the event is decided here and carried out
//! on the registry.

use crate::broadcast::{BroadcastRegistry, Delivery};
use crate::ids::is_random_uuid;
use tokio::sync::broadcast::Receiver;
use vstd::prelude::*;

verus! {

/// Where a live connection stands.
#[derive(Debug, Clone, Copy, PartialEq, Eq, Structural)]
pub enum Connection {
    /// Accepted, not yet upgraded. The registry does not know it.
    Connecting,
    /// Upgraded and registered under `id`.
    Open { id: u128 },
    /// Over. Nothing leads out of this state.
    Closed,
}

/// Why a connection ended.
#[derive(Debug, Clone, Copy, PartialEq, Eq, Structural)]
pub enum CloseCause {
    ClientDisconnect,
    WriteError,
    Shutdown,
}

/// What happened to a connection.
#[derive(Debug)]
pub enum LiveEvent {
    /// The upgrade to a live stream went through.
    Upgraded,
    /// The ping timer fired; the frame is the ping to publish.
    PingDue { frame: Vec<u8> },
    /// The connection ended.
    Ended { cause: CloseCause },
}

/// What was done about an event.
#[derive(Debug)]
pub enum LiveOutcome {
    /// The connection was registered; this is its stream of frames.
    Opened { stream: Receiver<Vec<u8>> },
    /// A ping was published.
    Pinged { delivery: Delivery },
    /// The connection is over. If it was registered, it no longer is.
    Released,
    /// The event does not concern a connection in this state.
    Ignored,
}

impl Connection {
    /// Whether `event` moves a connection in state `self` at all.
    pub open spec fn heeds(self, event: LiveEvent) -> bool {
        match (self, event) {
            (Connection::Connecting, LiveEvent::Upgraded) => true,
            (Connection::Connecting, LiveEvent::Ended { .. }) => true,
            (Connection::Open { .. }, LiveEvent::PingDue { .. }) => true,
            (Connection::Open { .. }, LiveEvent::Ended { .. }) => true,
            _ => false,
        }
    }

    /// The state after `event`, where `fresh` is the identifier drawn for a
    /// connection that opens.
    pub open spec fn after(self, event: LiveEvent, fresh: u128) -> Connection {
        match (self, event) {
            (Connection::Connecting, LiveEvent::Upgraded) => Connection::Open { id: fresh },
            (Connection::Connecting, LiveEvent::Ended { .. }) => Connection::Closed,
            (Connection::Open { .. }, LiveEvent::Ended { .. }) => Connection::Closed,
            _ => self,
        }
    }

    /// The registered connections after `event` reached a connection in
    /// state `self`: opening adds it, ending removes it, nothing else
    /// changes the registry.
    pub open spec fn registry_after(self, event: LiveEvent, fresh: u128, ids: Set<u128>) -> Set<u128> {
        match (self, event) {
            (Connection::Connecting, LiveEvent::Upgraded) => ids.insert(fresh),
            (Connection::Open { id }, LiveEvent::Ended { .. }) => ids.remove(id),
            _ => ids,
        }
    }

    /// The identifier under which the connection is registered; zero for a
    /// connection that is not open.
    pub open spec fn id_or_zero(self) -> u128 {
        match self {
            Connection::Open { id } => id,
            _ => 0,
        }
    }
}

impl BroadcastRegistry {
    /// Carries out what `event` means for a connection in state `connection`
    /// and returns the state that follows.
    ///
    /// An upgrade registers the connection under a freshly drawn identifier.
    /// A due ping is published to an open connection and to no other. An end
    /// takes an open connection out of the registry, whatever the cause. A
    /// closed connection stays closed and is never touched again.
    pub fn advance(&mut self, connection: Connection, event: LiveEvent) -> (step: (Connection, LiveOutcome))
        requires
            old(self).wf(),
        ensures
            final(self).wf(),
            step.0 == connection.after(event, step.0.id_or_zero()),
            final(self)@ == connection.registry_after(event, step.0.id_or_zero(), old(self)@),
            match (connection, event) {
                (Connection::Connecting, LiveEvent::Upgraded) => step.1 is Opened && is_random_uuid(
                    step.0.id_or_zero(),
                ),
                (Connection::Open { id }, LiveEvent::PingDue { .. }) => step.1 matches LiveOutcome::Pinged {
                    delivery,
                } && (delivery == Delivery::NotOpen <==> !old(self)@.contains(id)) && (delivery matches Delivery::Delivered {
                    receivers,
                } ==> receivers >= 1),
                (Connection::Connecting, LiveEvent::Ended { .. }) => step.1 is Released,
                (Connection::Open { .. }, LiveEvent::Ended { .. }) => step.1 is Released,
                _ => step.1 is Ignored,
            },
    {
        match connection {
            Connection::Connecting => match event {
                LiveEvent::Upgraded => {
                    let (id, stream) = self.open_live_connection();
                    (Connection::Open { id }, LiveOutcome::Opened { stream })
                },
                LiveEvent::Ended { .. } => (Connection::Closed, LiveOutcome::Released),
                LiveEvent::PingDue { .. } => (connection, LiveOutcome::Ignored),
            },
            Connection::Open { id } => match event {
                LiveEvent::PingDue { frame } => {
                    let delivery = self.publish_ping(id, frame);
                    (connection, LiveOutcome::Pinged { delivery })
                },
                LiveEvent::Ended { .. } => {
                    let _ = self.close(id);
                    (Connection::Closed, LiveOutcome::Released)
                },
                LiveEvent::Upgraded => (connection, LiveOutcome::Ignored),
            },
            Connection::Closed => (connection, LiveOutcome::Ignored),
        }
    }
}

/// A ping changes nothing but the channel: the connection it was due for
/// stays in its state, and the registry stays as it is. So an open
/// connection stays registered, and is pinged, until it ends.
pub proof fn ping_keeps_connection(connection: Connection, frame: Vec<u8>, fresh: u128, ids: Set<u128>)
    ensures
        connection.after(LiveEvent::PingDue { frame }, fresh) == connection,
        connection.registry_after(LiveEvent::PingDue { frame }, fresh, ids) == ids,
        connection.heeds(LiveEvent::PingDue { frame }) <==> connection is Open,
{
}

/// A connection that ends leaves nothing behind. From a registry that does
/// not hold the identifier drawn for it, opening the connection adds one
/// entry, and ending it, whatever the cause, gives back the registry there
/// was before, with the size it had.
pub proof fn close_restores_baseline(ids: Set<u128>, fresh: u128, cause: CloseCause)
    requires
        ids.finite(),
        !ids.contains(fresh),
    ensures
        ({
            let opened = Connection::Connecting.after(LiveEvent::Upgraded, fresh);
            let during = Connection::Connecting.registry_after(LiveEvent::Upgraded, fresh, ids);
            let ended = LiveEvent::Ended { cause };
            &&& opened == Connection::Open { id: fresh }
            &&& during.contains(fresh)
            &&& during.len() == ids.len() + 1
            &&& opened.after(ended, fresh) == Connection::Closed
            &&& opened.registry_after(ended, fresh, during) == ids
            &&& !opened.registry_after(ended, fresh, during).contains(fresh)
        }),
{
    assert(ids.insert(fresh).remove(fresh) =~= ids);
}

/// Closed is final. No event moves a closed connection or makes it touch
/// the registry, so no ping is published for it again.
pub proof fn closed_is_final(event: LiveEvent, fresh: u128, ids: Set<u128>)
    ensures
        !Connection::Closed.heeds(event),
        Connection::Closed.after(event, fresh) == Connection::Closed,
        Connection::Closed.registry_after(event, fresh, ids) == ids,
{
}

} // verus!

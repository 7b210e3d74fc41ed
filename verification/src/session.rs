//! The session manager: one instance per connection attempt to the remote
//! device-session server.
//!
//! An instance walks a fixed protocol order — subscribe to the event stream
//! first, then connect, then start scanning — and then consumes events until
//! it terminates. Subscribing before connecting is mandatory: a server that
//! already knows devices reports them as added-events on connect, and a late
//! subscriber would miss them. The preconditions on the methods below encode
//! that order, so a caller that verifies (or checks them dynamically) cannot
//! scan before subscribing.
//!
//! Consuming an event is the one place the registry is written: a
//! device-added event upserts the device under its normalized name and under
//! the reserved alias `last`, then publishes. A device-removed event only
//! asks for a rescan — the entry stays, an accepted staleness. A
//! server-disconnect terminates the instance; the caller (the reconnect
//! supervisor) starts a fresh instance with the same address, without backoff
//! and without limit.
use vstd::prelude::*;
use crate::device::{normalize_spec, Device, DeviceView};
use crate::registry::{staged, visible, Registry};

verus! {

/// Where a session instance stands in its life cycle.
#[derive(Debug, Clone, Copy, PartialEq, Eq, Structural)]
pub enum SessionPhase {
    /// Fresh instance; nothing done yet.
    Created,
    /// Subscribed to the event stream; not yet connected.
    Subscribed,
    /// Connected to the server; not yet scanning.
    Connected,
    /// Scanning requested; consuming events.
    Running,
    /// Ended, by a disconnect or by a failed connect or scan request.
    Terminated,
}

/// One event from the device-session server's stream.
pub enum SessionEvent {
    /// A device appeared (or was already known to the server on connect).
    DeviceAdded(Device),
    /// A device disappeared; possibly a transient drop of that one device.
    DeviceRemoved(Device),
    /// The server connection itself is gone.
    ServerDisconnect,
    /// Any other event kind; ignored.
    Other,
}

/// What the caller must do after an event is consumed.
#[derive(Debug, Clone, Copy, PartialEq, Eq, Structural)]
pub enum EventOutcome {
    /// Keep consuming events.
    Continue,
    /// Stop and restart scanning (a single device dropped), then keep
    /// consuming events.
    Rescan,
    /// The instance is over; the supervisor reconnects from scratch.
    Terminate,
}

/// The reserved registry key that always names the most recently added
/// device.
pub open spec fn last_key() -> Seq<char> {
    "last"@
}

/// One connection attempt's state machine.
pub struct SessionManager {
    pub phase: SessionPhase,
}

impl SessionManager {
    /// A fresh instance, before any step of the protocol.
    pub fn new() -> (m: SessionManager)
        ensures
            m.phase == SessionPhase::Created,
    {
        SessionManager { phase: SessionPhase::Created }
    }

    /// Records that the event stream is subscribed. Must be the first step,
    /// before the connect is issued.
    pub fn note_subscribed(&mut self)
        requires
            old(self).phase == SessionPhase::Created,
        ensures
            final(self).phase == SessionPhase::Subscribed,
    {
        self.phase = SessionPhase::Subscribed;
    }

    /// Records the outcome of the connect request: a failed connect ends the
    /// instance.
    pub fn note_connected(&mut self, ok: bool)
        requires
            old(self).phase == SessionPhase::Subscribed,
        ensures
            final(self).phase == (if ok {
                SessionPhase::Connected
            } else {
                SessionPhase::Terminated
            }),
    {
        self.phase = if ok {
            SessionPhase::Connected
        } else {
            SessionPhase::Terminated
        };
    }

    /// Records the outcome of the scan request, issued only after subscribe
    /// and connect: a failed request ends the instance.
    pub fn note_scanning(&mut self, ok: bool)
        requires
            old(self).phase == SessionPhase::Connected,
        ensures
            final(self).phase == (if ok {
                SessionPhase::Running
            } else {
                SessionPhase::Terminated
            }),
    {
        self.phase = if ok {
            SessionPhase::Running
        } else {
            SessionPhase::Terminated
        };
    }

    /// Consumes one event from the stream.
    ///
    /// A device-added event stages the device under its normalized name and
    /// rebinds the `last` alias to it, then publishes both at once, so the
    /// most recently added device is always the one the alias answers. A
    /// device-removed event leaves the registry as it is and asks the caller
    /// to rescan. A server-disconnect terminates the instance. Anything else
    /// is ignored.
    pub fn handle_event(&mut self, registry: &mut Registry, event: SessionEvent) -> (r:
        EventOutcome)
        requires
            old(self).phase == SessionPhase::Running,
        ensures
            match event {
                SessionEvent::DeviceAdded(d) => {
                    &&& r == EventOutcome::Continue
                    &&& staged(*final(registry)) == staged(*old(registry)).insert(
                        normalize_spec(d.name@),
                        d@,
                    ).insert(last_key(), d@)
                    &&& visible(*final(registry)) == staged(*final(registry))
                    &&& visible(*final(registry)).contains_key(last_key())
                    &&& visible(*final(registry))[last_key()] == d@
                },
                SessionEvent::DeviceRemoved(_) => {
                    &&& r == EventOutcome::Rescan
                    &&& *final(registry) == *old(registry)
                },
                SessionEvent::ServerDisconnect => {
                    &&& r == EventOutcome::Terminate
                    &&& *final(registry) == *old(registry)
                },
                SessionEvent::Other => {
                    &&& r == EventOutcome::Continue
                    &&& *final(registry) == *old(registry)
                },
            },
            final(self).phase == (if event is ServerDisconnect {
                SessionPhase::Terminated
            } else {
                SessionPhase::Running
            }),
    {
        match event {
            SessionEvent::DeviceAdded(d) => {
                let key = crate::device::normalize_device_name(d.name.as_str());
                let alias = d.duplicate();
                registry.update(key, d);
                registry.update("last".to_owned(), alias);
                registry.refresh();
                EventOutcome::Continue
            },
            SessionEvent::DeviceRemoved(_) => EventOutcome::Rescan,
            SessionEvent::ServerDisconnect => {
                self.phase = SessionPhase::Terminated;
                EventOutcome::Terminate
            },
            SessionEvent::Other => EventOutcome::Continue,
        }
    }
}

/// Two devices whose raw names normalize identically collapse to one registry
/// key: after both are added — each staging its normalized name, rebinding
/// the `last` alias, and publishing — the snapshot holds one entry for the
/// shared key, bound to the later device, which the alias names too.
pub proof fn lemma_identical_normalization_collapses(
    m: Map<Seq<char>, DeviceView>,
    a: Seq<char>,
    b: Seq<char>,
    d1: DeviceView,
    d2: DeviceView,
)
    ensures
        normalize_spec(a) == normalize_spec(b) ==> ({
            let after = m.insert(normalize_spec(a), d1).insert(last_key(), d1).insert(
                normalize_spec(b),
                d2,
            ).insert(last_key(), d2);
            &&& after.dom() =~= m.dom().insert(normalize_spec(b)).insert(last_key())
            &&& after[normalize_spec(b)] == d2
            &&& after[last_key()] == d2
        }),
{
}

} // verus!

//! Decisions of the MIDI output session: which transport action follows each
//! event. The caller performs the actions (waiting for the host, taking the next
//! message from the outbound queue, writing a packet) and reports what happened.
use vstd::prelude::*;
use crate::message::MidiMessage;

verus! {

/// USB cable number that outbound packets use.
pub const OUTPUT_CABLE: u8 = 0;

/// MIDI channel that mapped Control Change events are sent on.
pub const OUTPUT_CHANNEL: u8 = 0;

/// Capacity of the outbound message queue between sampling and the session.
pub const QUEUE_CAPACITY: usize = 10;

/// Why a packet write failed.
#[derive(Debug, Clone, Copy, PartialEq, Eq, Structural)]
pub enum WriteFault {
    /// The packet did not fit in the endpoint's buffer.
    BufferOverflow,
    /// The endpoint is disabled: the host went away.
    Disabled,
}

/// Whether the host is connected.
#[derive(Debug, Clone, Copy, PartialEq, Eq, Structural)]
pub enum SessionState {
    Disconnected,
    Connected,
}

/// What happened since the last action.
#[derive(Debug, Clone, Copy, PartialEq, Eq, Structural)]
pub enum SessionEvent {
    /// The host connected.
    Connected,
    /// The outbound queue handed over its oldest message.
    Dequeued(MidiMessage),
    /// The last packet was written.
    WriteCompleted,
    /// The last packet could not be written.
    WriteFailed(WriteFault),
}

/// What the caller does next.
#[derive(Debug, Clone, Copy, PartialEq, Eq)]
pub enum SessionAction {
    /// Wait until the host connects.
    WaitForConnection,
    /// Take the next message from the outbound queue, first dropping every message
    /// queued before now when `discard_stale` holds.
    Receive { discard_stale: bool },
    /// Write this USB-MIDI packet.
    WritePacket([u8; 4]),
    /// Stop: the transport hit a condition it cannot recover from.
    Halt,
}

/// The state after an event: a connection makes the session connected, a failed
/// write ends it, and nothing else changes it.
pub open spec fn next_state(state: SessionState, event: SessionEvent) -> SessionState {
    match (state, event) {
        (SessionState::Disconnected, SessionEvent::Connected) => SessionState::Connected,
        (SessionState::Connected, SessionEvent::WriteFailed(_)) => SessionState::Disconnected,
        _ => state,
    }
}

/// The action after an event. While disconnected the session waits for the host;
/// a new connection starts with the stale queue discarded. Only Control Change
/// messages are written, as USB-MIDI packets on the output cable; other messages
/// are taken from the queue and dropped. A disabled endpoint ends the session and
/// a buffer overflow halts it.
pub open spec fn is_next_action(state: SessionState, event: SessionEvent, a: SessionAction) -> bool {
    match (state, event) {
        (SessionState::Disconnected, SessionEvent::Connected) => a == SessionAction::Receive {
            discard_stale: true,
        },
        (SessionState::Disconnected, _) => a == SessionAction::WaitForConnection,
        (SessionState::Connected, SessionEvent::Dequeued(m)) => match m {
            MidiMessage::ControlChange(..) => a matches SessionAction::WritePacket(p) && p@
                == m.usb_packet(OUTPUT_CABLE),
            _ => a == SessionAction::Receive { discard_stale: false },
        },
        (SessionState::Connected, SessionEvent::WriteFailed(WriteFault::Disabled)) => a
            == SessionAction::WaitForConnection,
        (SessionState::Connected, SessionEvent::WriteFailed(WriteFault::BufferOverflow)) => a
            == SessionAction::Halt,
        (SessionState::Connected, _) => a == SessionAction::Receive { discard_stale: false },
    }
}

impl SessionState {
    /// The state a session starts in, before any host has connected.
    pub fn start() -> (r: (SessionState, SessionAction))
        ensures
            r == (SessionState::Disconnected, SessionAction::WaitForConnection),
    {
        (SessionState::Disconnected, SessionAction::WaitForConnection)
    }

    /// The next state and action for an event.
    pub fn step(self, event: SessionEvent) -> (r: (SessionState, SessionAction))
        ensures
            r.0 == next_state(self, event),
            is_next_action(self, event, r.1),
    {
        match (self, event) {
            (SessionState::Disconnected, SessionEvent::Connected) => (
                SessionState::Connected,
                SessionAction::Receive { discard_stale: true },
            ),
            (SessionState::Disconnected, _) => (SessionState::Disconnected, SessionAction::WaitForConnection),
            (SessionState::Connected, SessionEvent::Dequeued(m)) => match m {
                MidiMessage::ControlChange(..) => (
                    SessionState::Connected,
                    SessionAction::WritePacket(m.to_usb_packet(OUTPUT_CABLE)),
                ),
                _ => (SessionState::Connected, SessionAction::Receive { discard_stale: false }),
            },
            (SessionState::Connected, SessionEvent::WriteFailed(WriteFault::Disabled)) => (
                SessionState::Disconnected,
                SessionAction::WaitForConnection,
            ),
            (SessionState::Connected, SessionEvent::WriteFailed(WriteFault::BufferOverflow)) => (
                SessionState::Disconnected,
                SessionAction::Halt,
            ),
            (SessionState::Connected, _) => (SessionState::Connected, SessionAction::Receive { discard_stale: false }),
        }
    }
}

} // verus!

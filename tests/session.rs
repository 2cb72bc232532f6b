use midi_expressor::message::MidiMessage;
use midi_expressor::session::{SessionAction, SessionEvent, SessionState, WriteFault};

#[test]
fn session_lifecycle() {
    let (s, a) = SessionState::start();
    assert_eq!((s, a), (SessionState::Disconnected, SessionAction::WaitForConnection));
    let (s, a) = s.step(SessionEvent::WriteCompleted);
    assert_eq!((s, a), (SessionState::Disconnected, SessionAction::WaitForConnection));
    let (s, a) = s.step(SessionEvent::Connected);
    assert_eq!((s, a), (SessionState::Connected, SessionAction::Receive { discard_stale: true }));
    let (s, a) = s.step(SessionEvent::Dequeued(MidiMessage::ControlChange(2, 7, 100)));
    assert_eq!((s, a), (SessionState::Connected, SessionAction::WritePacket([0x0B, 0xB2, 0x07, 0x64])));
    let (s, a) = s.step(SessionEvent::WriteCompleted);
    assert_eq!((s, a), (SessionState::Connected, SessionAction::Receive { discard_stale: false }));
    let (s, a) = s.step(SessionEvent::Dequeued(MidiMessage::NoteOn(0, 60, 1)));
    assert_eq!((s, a), (SessionState::Connected, SessionAction::Receive { discard_stale: false }));
    let (s, a) = s.step(SessionEvent::WriteFailed(WriteFault::Disabled));
    assert_eq!((s, a), (SessionState::Disconnected, SessionAction::WaitForConnection));
}

#[test]
fn buffer_overflow_halts() {
    let (s, a) = SessionState::Connected.step(SessionEvent::WriteFailed(WriteFault::BufferOverflow));
    assert_eq!((s, a), (SessionState::Disconnected, SessionAction::Halt));
}

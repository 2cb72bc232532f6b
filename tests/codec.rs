use midi_expressor::message::{DecodeStep, DinDecoder, MidiMessage, UsbDecoder};

fn feed_all_din(bytes: &[u8]) -> Vec<DecodeStep> {
    let mut d = DinDecoder::new();
    bytes.iter().map(|b| d.feed(*b)).collect()
}

#[test]
fn test_receive_din() {
    let steps = feed_all_din(&[0x85, 0x12, 0x34]);
    assert_eq!(steps.last(), Some(&DecodeStep::Done(Some(MidiMessage::NoteOff(0x05, 0x12, 0x34)))));
}

#[test]
fn decode_note_off_scenario() {
    assert_eq!(
        MidiMessage::decode_din(&[0x85, 0x12, 0x34]),
        Some((Some(MidiMessage::NoteOff(5, 0x12, 0x34)), 3))
    );
}

#[test]
fn encode_control_change_scenario() {
    assert_eq!(MidiMessage::ControlChange(2, 7, 100).to_din_bytes(), vec![0xB2, 0x07, 0x64]);
}

#[test]
fn pitch_bend_reconstruction() {
    assert_eq!(
        MidiMessage::decode_din(&[0xE0, 0x7F, 0x01]),
        Some((Some(MidiMessage::PitchBend(0, 255)), 3))
    );
}

#[test]
fn pitch_bend_encoding_low_bits_first() {
    assert_eq!(MidiMessage::PitchBend(3, 0x2001).to_din_bytes(), vec![0xE3, 0x01, 0x40]);
    assert_eq!(MidiMessage::PitchBend(0, 16383).to_din_bytes(), vec![0xE0, 0x7F, 0x7F]);
}

#[test]
fn round_trip_every_kind() {
    let msgs = [
        MidiMessage::NoteOff(0, 60, 0),
        MidiMessage::NoteOn(15, 127, 127),
        MidiMessage::PolyKeyPressure(7, 1, 2),
        MidiMessage::ControlChange(2, 7, 100),
        MidiMessage::ProgramChange(9, 42),
        MidiMessage::ChannelPressure(4, 99),
        MidiMessage::PitchBend(1, 8192),
        MidiMessage::PitchBend(15, 16383),
    ];
    for m in msgs {
        let bytes = m.to_din_bytes();
        assert_eq!(MidiMessage::decode_din(&bytes), Some((Some(m), bytes.len())));
        assert_eq!(MidiMessage::decode_usb_packet(m.to_usb_packet(5)), Some(m));
    }
}

#[test]
fn two_byte_messages() {
    assert_eq!(MidiMessage::ProgramChange(3, 5).to_din_bytes(), vec![0xC3, 0x05]);
    assert_eq!(MidiMessage::decode_din(&[0xD1, 0x10, 0xFF]), Some((Some(MidiMessage::ChannelPressure(1, 0x10)), 2)));
}

#[test]
fn data_byte_as_status_is_rejected() {
    assert_eq!(MidiMessage::decode_din(&[0x12, 0x34, 0x56]), Some((None, 1)));
    assert_eq!(MidiMessage::decode_din(&[0x7F]), Some((None, 1)));
    assert_eq!(feed_all_din(&[0x00]), vec![DecodeStep::Done(None)]);
}

#[test]
fn system_status_is_rejected() {
    assert_eq!(MidiMessage::decode_din(&[0xF8, 0x01]), Some((None, 1)));
}

#[test]
fn incomplete_frames() {
    assert_eq!(MidiMessage::decode_din(&[]), None);
    assert_eq!(MidiMessage::decode_din(&[0x90, 0x40]), None);
    assert_eq!(MidiMessage::decode_din(&[0xC0]), None);
}

#[test]
fn stream_decoder_resynchronises() {
    let steps = feed_all_din(&[0x40, 0x91, 0x3C, 0x64, 0xB0, 0x07]);
    assert_eq!(
        steps,
        vec![
            DecodeStep::Done(None),
            DecodeStep::NeedMore,
            DecodeStep::NeedMore,
            DecodeStep::Done(Some(MidiMessage::NoteOn(1, 0x3C, 0x64))),
            DecodeStep::NeedMore,
            DecodeStep::NeedMore,
        ]
    );
}

#[test]
fn usb_stream_decoder() {
    let mut d = UsbDecoder::new();
    let steps: Vec<DecodeStep> = [0x1B, 0xB3, 0x07, 0x64, 0x02, 0x0F].iter().map(|b| d.feed(*b)).collect();
    assert_eq!(
        steps,
        vec![
            DecodeStep::NeedMore,
            DecodeStep::NeedMore,
            DecodeStep::NeedMore,
            DecodeStep::Done(Some(MidiMessage::ControlChange(3, 7, 100))),
            DecodeStep::Done(None),
            DecodeStep::Done(None),
        ]
    );
}

#[test]
fn usb_packets() {
    assert_eq!(MidiMessage::ControlChange(2, 7, 100).to_usb_packet(0), [0x0B, 0xB2, 0x07, 0x64]);
    assert_eq!(MidiMessage::ProgramChange(1, 9).to_usb_packet(3), [0x3C, 0xC1, 0x09, 0x00]);
    assert_eq!(MidiMessage::decode_usb_packet([0x09, 0x90, 0x3C, 0x7F]), Some(MidiMessage::NoteOn(0, 0x3C, 0x7F)));
    assert_eq!(MidiMessage::decode_usb_packet([0x2C, 0xC4, 0x05, 0x77]), Some(MidiMessage::ProgramChange(4, 5)));
    assert_eq!(MidiMessage::decode_usb_packet([0x0F, 0xF8, 0x00, 0x00]), None);
    assert_eq!(MidiMessage::decode_usb_packet([0x07, 0x90, 0x3C, 0x7F]), None);
}

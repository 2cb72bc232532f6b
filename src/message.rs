//! MIDI channel-voice messages and their wire forms: the DIN byte stream and
//! 4-byte USB-MIDI packets.
use vstd::prelude::*;

verus! {

/// Status command nibbles (high nibble of the status byte) of the seven
/// channel-voice messages.
pub const NOTE_OFF: u8 = 0x80;
pub const NOTE_ON: u8 = 0x90;
pub const POLY_KEY_PRESSURE: u8 = 0xA0;
pub const CONTROL_CHANGE: u8 = 0xB0;
pub const PROGRAM_CHANGE: u8 = 0xC0;
pub const CHANNEL_PRESSURE: u8 = 0xD0;
pub const PITCH_BEND: u8 = 0xE0;

/// One MIDI channel-voice message. Fields are, in order, the channel and then the
/// data values; `PitchBend` carries one 14-bit value.
#[derive(Debug, Clone, Copy, PartialEq, Eq, Structural)]
pub enum MidiMessage {
    NoteOff(u8, u8, u8),
    NoteOn(u8, u8, u8),
    PolyKeyPressure(u8, u8, u8),
    ControlChange(u8, u8, u8),
    ProgramChange(u8, u8),
    ChannelPressure(u8, u8),
    PitchBend(u8, u16),
}

/// The command part (high nibble) of a status byte.
pub open spec fn command_of(status: u8) -> u8 {
    status & 0xf0
}

/// The channel part (low nibble) of a status byte.
pub open spec fn channel_of(status: u8) -> u8 {
    status & 0x0f
}

/// Whether a status byte starts one of the seven channel-voice messages.
pub open spec fn is_voice_status(status: u8) -> bool {
    0x80 <= command_of(status) <= 0xe0
}

/// How many data bytes follow a status byte: none where the status is not
/// recognised.
pub open spec fn data_len(status: u8) -> nat {
    let c = command_of(status);
    if c == 0xc0 || c == 0xd0 {
        1
    } else if is_voice_status(status) {
        2
    } else {
        0
    }
}

/// Length of the DIN frame that starts with this status byte: the status byte and
/// its data bytes.
pub open spec fn frame_len(status: u8) -> nat {
    1 + data_len(status)
}

/// The 14-bit pitch-bend value carried by its two data bytes, low 7 bits first.
pub open spec fn value14(low: u8, high: u8) -> u16 {
    (low as u16) | ((high as u16) << 7u16)
}

/// The message that a complete DIN frame decodes to; `None` for a status byte that
/// is not a channel-voice status. Data bytes are taken as they come.
pub open spec fn decode_frame(f: Seq<u8>) -> Option<MidiMessage> {
    let status = f[0];
    let c = command_of(status);
    let ch = channel_of(status);
    if c == 0x80 {
        Some(MidiMessage::NoteOff(ch, f[1], f[2]))
    } else if c == 0x90 {
        Some(MidiMessage::NoteOn(ch, f[1], f[2]))
    } else if c == 0xa0 {
        Some(MidiMessage::PolyKeyPressure(ch, f[1], f[2]))
    } else if c == 0xb0 {
        Some(MidiMessage::ControlChange(ch, f[1], f[2]))
    } else if c == 0xc0 {
        Some(MidiMessage::ProgramChange(ch, f[1]))
    } else if c == 0xd0 {
        Some(MidiMessage::ChannelPressure(ch, f[1]))
    } else if c == 0xe0 {
        Some(MidiMessage::PitchBend(ch, value14(f[1], f[2])))
    } else {
        None
    }
}

impl MidiMessage {
    /// The channel the message is addressed to.
    pub open spec fn channel(self) -> u8 {
        match self {
            MidiMessage::NoteOff(c, _, _) => c,
            MidiMessage::NoteOn(c, _, _) => c,
            MidiMessage::PolyKeyPressure(c, _, _) => c,
            MidiMessage::ControlChange(c, _, _) => c,
            MidiMessage::ProgramChange(c, _) => c,
            MidiMessage::ChannelPressure(c, _) => c,
            MidiMessage::PitchBend(c, _) => c,
        }
    }

    /// Field ranges of a message: a 4-bit channel, 7-bit data values and a 14-bit
    /// pitch-bend value.
    pub open spec fn wf(self) -> bool {
        &&& self.channel() < 16
        &&& match self {
            MidiMessage::NoteOff(_, a, b) => a < 128 && b < 128,
            MidiMessage::NoteOn(_, a, b) => a < 128 && b < 128,
            MidiMessage::PolyKeyPressure(_, a, b) => a < 128 && b < 128,
            MidiMessage::ControlChange(_, a, b) => a < 128 && b < 128,
            MidiMessage::ProgramChange(_, a) => a < 128,
            MidiMessage::ChannelPressure(_, a) => a < 128,
            MidiMessage::PitchBend(_, v) => v < 16384,
        }
    }

    /// The status command nibble of the message's kind.
    pub open spec fn command(self) -> u8 {
        match self {
            MidiMessage::NoteOff(..) => 0x80,
            MidiMessage::NoteOn(..) => 0x90,
            MidiMessage::PolyKeyPressure(..) => 0xa0,
            MidiMessage::ControlChange(..) => 0xb0,
            MidiMessage::ProgramChange(..) => 0xc0,
            MidiMessage::ChannelPressure(..) => 0xd0,
            MidiMessage::PitchBend(..) => 0xe0,
        }
    }

    /// The DIN bytes of the message: the status byte (command with the channel in
    /// the low nibble), then its data bytes; a pitch-bend value low 7 bits first.
    pub open spec fn din_bytes(self) -> Seq<u8> {
        let status = self.command() | self.channel();
        match self {
            MidiMessage::NoteOff(_, a, b) => seq![status, a, b],
            MidiMessage::NoteOn(_, a, b) => seq![status, a, b],
            MidiMessage::PolyKeyPressure(_, a, b) => seq![status, a, b],
            MidiMessage::ControlChange(_, a, b) => seq![status, a, b],
            MidiMessage::ProgramChange(_, a) => seq![status, a],
            MidiMessage::ChannelPressure(_, a) => seq![status, a],
            MidiMessage::PitchBend(_, v) => seq![
                status,
                (v & 0x7f) as u8,
                ((v >> 7u16) & 0x7f) as u8,
            ],
        }
    }
}


/// Whether a USB-MIDI packet header carries a channel-voice Code Index Number
/// (low nibble 0x8 to 0xE). The cable number (high nibble) is not looked at.
pub open spec fn cin_accepted(header: u8) -> bool {
    0x8 <= (header & 0x0f) <= 0xe
}

/// The message that a 4-byte USB-MIDI packet carries; bytes past the message's
/// DIN frame are ignored.
pub open spec fn decode_packet(p: Seq<u8>) -> Option<MidiMessage> {
    if cin_accepted(p[0]) {
        decode_frame(p.subrange(1, 4))
    } else {
        None
    }
}

/// Whether a USB-MIDI byte run (header first, then the DIN frame) is complete.
pub open spec fn usb_run_complete(s: Seq<u8>) -> bool {
    &&& s.len() >= 1
    &&& if cin_accepted(s[0]) {
        s.len() >= 2 && s.len() == 1 + frame_len(s[1])
    } else {
        s.len() == 1
    }
}

/// The message that a complete USB-MIDI byte run decodes to.
pub open spec fn decode_usb_run(s: Seq<u8>) -> Option<MidiMessage> {
    if cin_accepted(s[0]) {
        decode_frame(s.drop_first())
    } else {
        None
    }
}

impl MidiMessage {
    /// The USB-MIDI packet of the message on a cable: header `(cable << 4) | CIN`,
    /// where the CIN is the command nibble, then the DIN bytes, padded with zeros.
    pub open spec fn usb_packet(self, cable: u8) -> Seq<u8> {
        let d = self.din_bytes();
        let header = ((cable << 4u8) | (self.command() >> 4u8)) as u8;
        seq![header] + d + Seq::new((3 - d.len()) as nat, |i: int| 0u8)
    }
}

/// The status byte of a command and a channel splits back into the two.
proof fn lemma_status_split(command: u8, channel: u8)
    requires
        command & 0x0f == 0,
        channel < 16,
    ensures
        command_of(command | channel) == command,
        channel_of(command | channel) == channel,
{
    assert((command | channel) & 0xf0 == command) by (bit_vector)
        requires
            command & 0x0f == 0,
            channel < 16,
    ;
    assert((command | channel) & 0x0f == channel) by (bit_vector)
        requires
            command & 0x0f == 0,
            channel < 16,
    ;
}

/// A 14-bit value survives its split into two 7-bit data bytes.
proof fn lemma_value14_split(v: u16)
    requires
        v < 16384,
    ensures
        value14((v & 0x7f) as u8, ((v >> 7u16) & 0x7f) as u8) == v,
{
    assert(((v & 0x7f) as u8 as u16) | (((((v >> 7u16) & 0x7f) as u8) as u16) << 7u16) == v)
        by (bit_vector)
        requires
            v < 16384,
    ;
}

/// A header built from a cable number and a command nibble splits back into them.
proof fn lemma_header_split(cable: u8, command: u8)
    requires
        cable < 16,
        0x80 <= command <= 0xe0,
        command & 0x0f == 0,
    ensures
        (((cable << 4u8) | (command >> 4u8)) as u8) & 0x0f == command >> 4u8,
        0x8 <= command >> 4u8 <= 0xe,
{
    assert((((cable << 4u8) | (command >> 4u8)) as u8) & 0x0f == command >> 4u8) by (bit_vector)
        requires
            cable < 16,
    ;
    assert(0x8 <= command >> 4u8 <= 0xe) by (bit_vector)
        requires
            0x80 <= command <= 0xe0,
    ;
}

/// Round trip over DIN: the bytes of every message with valid field ranges form
/// one complete frame, and that frame decodes to the same message.
pub proof fn lemma_din_round_trip(m: MidiMessage)
    requires
        m.wf(),
    ensures
        m.din_bytes().len() == frame_len(m.din_bytes()[0]),
        decode_frame(m.din_bytes()) == Some(m),
{
    let c = m.command();
    assert(c & 0x0f == 0) by {
        assert(0x80u8 & 0x0f == 0 && 0x90u8 & 0x0f == 0 && 0xa0u8 & 0x0f == 0 && 0xb0u8 & 0x0f
            == 0 && 0xc0u8 & 0x0f == 0 && 0xd0u8 & 0x0f == 0 && 0xe0u8 & 0x0f == 0) by (bit_vector);
    }
    lemma_status_split(c, m.channel());
    if let MidiMessage::PitchBend(_, v) = m {
        lemma_value14_split(v);
    }
}

/// Round trip over USB-MIDI: the packet of every message with valid field ranges,
/// on any cable, decodes to the same message.
pub proof fn lemma_usb_round_trip(m: MidiMessage, cable: u8)
    requires
        m.wf(),
        cable < 16,
    ensures
        m.usb_packet(cable).len() == 4,
        decode_packet(m.usb_packet(cable)) == Some(m),
{
    lemma_din_round_trip(m);
    let c = m.command();
    assert(c & 0x0f == 0) by {
        assert(0x80u8 & 0x0f == 0 && 0x90u8 & 0x0f == 0 && 0xa0u8 & 0x0f == 0 && 0xb0u8 & 0x0f
            == 0 && 0xc0u8 & 0x0f == 0 && 0xd0u8 & 0x0f == 0 && 0xe0u8 & 0x0f == 0) by (bit_vector);
    }
    lemma_header_split(cable, c);
    let p = m.usb_packet(cable);
    let d = m.din_bytes();
    assert(p.subrange(1, 1 + d.len() as int) =~= d);
    assert(decode_frame(p.subrange(1, 4)) == decode_frame(d));
}

/// A leading data byte (high bit clear) is no status: it decodes to no message and
/// takes no data bytes with it.
pub proof fn lemma_data_byte_rejected(f: Seq<u8>)
    requires
        f.len() >= 1,
        f[0] < 0x80,
    ensures
        frame_len(f[0]) == 1,
        decode_frame(f) is None,
{
    let b = f[0];
    assert(b & 0xf0 < 0x80) by (bit_vector)
        requires
            b < 0x80,
    ;
}

/// One step of a stream decoder: more bytes are needed, or a frame is complete
/// and decoded to a message or to nothing (unrecognised status or packet header).
#[derive(Debug, Clone, Copy, PartialEq, Eq, Structural)]
pub enum DecodeStep {
    NeedMore,
    Done(Option<MidiMessage>),
}

/// Number of data bytes after a status byte.
fn data_len_of(status: u8) -> (r: usize)
    ensures
        r == data_len(status),
{
    let command = status & 0xf0;
    if command == PROGRAM_CHANGE || command == CHANNEL_PRESSURE {
        1
    } else if NOTE_OFF <= command && command <= PITCH_BEND {
        2
    } else {
        0
    }
}

/// Decodes a complete frame.
fn decode_complete_frame(f: &[u8]) -> (r: Option<MidiMessage>)
    requires
        f@.len() >= 1,
        f@.len() >= frame_len(f@[0]),
    ensures
        r == decode_frame(f@),
{
    let status = f[0];
    let command = status & 0xf0;
    let channel = status & 0x0f;
    if command == NOTE_OFF {
        Some(MidiMessage::NoteOff(channel, f[1], f[2]))
    } else if command == NOTE_ON {
        Some(MidiMessage::NoteOn(channel, f[1], f[2]))
    } else if command == POLY_KEY_PRESSURE {
        Some(MidiMessage::PolyKeyPressure(channel, f[1], f[2]))
    } else if command == CONTROL_CHANGE {
        Some(MidiMessage::ControlChange(channel, f[1], f[2]))
    } else if command == PROGRAM_CHANGE {
        Some(MidiMessage::ProgramChange(channel, f[1]))
    } else if command == CHANNEL_PRESSURE {
        Some(MidiMessage::ChannelPressure(channel, f[1]))
    } else if command == PITCH_BEND {
        Some(MidiMessage::PitchBend(channel, (f[1] as u16) | ((f[2] as u16) << 7u16)))
    } else {
        None
    }
}

impl MidiMessage {
    /// Decodes the DIN frame at the start of `bytes`. `None` when the bytes do not
    /// yet hold a whole frame; otherwise the decoded message (`None` for an
    /// unrecognised status byte, which the caller skips to resynchronise) and how
    /// many bytes the frame took.
    pub fn decode_din(bytes: &[u8]) -> (r: Option<(Option<MidiMessage>, usize)>)
        ensures
            r is None <==> (bytes@.len() == 0 || bytes@.len() < frame_len(bytes@[0])),
            r matches Some((m, n)) ==> n == frame_len(bytes@[0]) && m == decode_frame(
                bytes@.subrange(0, n as int),
            ),
    {
        if bytes.len() == 0 {
            return None;
        }
        let n = 1 + data_len_of(bytes[0]);
        if bytes.len() < n {
            return None;
        }
        let m = decode_complete_frame(bytes);
        assert(decode_frame(bytes@) == decode_frame(bytes@.subrange(0, n as int)));
        Some((m, n))
    }

    /// Decodes a 4-byte USB-MIDI packet: `None` unless its Code Index Number is
    /// that of a channel-voice message and the DIN frame after it is recognised.
    pub fn decode_usb_packet(packet: [u8; 4]) -> (r: Option<MidiMessage>)
        ensures
            r == decode_packet(packet@),
    {
        let cin = packet[0] & 0x0f;
        if 0x8 <= cin && cin <= 0xe {
            let frame: [u8; 3] = [packet[1], packet[2], packet[3]];
            let r = decode_complete_frame(frame.as_slice());
            assert(frame@ =~= packet@.subrange(1, 4));
            r
        } else {
            None
        }
    }

    /// The DIN bytes of the message, in wire order. Data values are written as they
    /// are, without masking.
    pub fn to_din_bytes(self) -> (r: Vec<u8>)
        ensures
            r@ == self.din_bytes(),
    {
        let r = match self {
            MidiMessage::NoteOff(c, a, b) => vec![NOTE_OFF | c, a, b],
            MidiMessage::NoteOn(c, a, b) => vec![NOTE_ON | c, a, b],
            MidiMessage::PolyKeyPressure(c, a, b) => vec![POLY_KEY_PRESSURE | c, a, b],
            MidiMessage::ControlChange(c, a, b) => vec![CONTROL_CHANGE | c, a, b],
            MidiMessage::ProgramChange(c, a) => vec![PROGRAM_CHANGE | c, a],
            MidiMessage::ChannelPressure(c, a) => vec![CHANNEL_PRESSURE | c, a],
            MidiMessage::PitchBend(c, v) => vec![
                PITCH_BEND | c,
                (v & 0x7f) as u8,
                ((v >> 7u16) & 0x7f) as u8,
            ],
        };
        assert(r@ =~= self.din_bytes());
        r
    }

    /// The 4-byte USB-MIDI packet of the message on the given cable.
    pub fn to_usb_packet(self, cable: u8) -> (r: [u8; 4])
        requires
            cable < 16,
        ensures
            r@ == self.usb_packet(cable),
    {
        let d = self.to_din_bytes();
        let command: u8 = match self {
            MidiMessage::NoteOff(..) => NOTE_OFF,
            MidiMessage::NoteOn(..) => NOTE_ON,
            MidiMessage::PolyKeyPressure(..) => POLY_KEY_PRESSURE,
            MidiMessage::ControlChange(..) => CONTROL_CHANGE,
            MidiMessage::ProgramChange(..) => PROGRAM_CHANGE,
            MidiMessage::ChannelPressure(..) => CHANNEL_PRESSURE,
            MidiMessage::PitchBend(..) => PITCH_BEND,
        };
        let header = (cable << 4u8) | (command >> 4u8);
        let r: [u8; 4] = if d.len() == 3 {
            [header, d[0], d[1], d[2]]
        } else {
            [header, d[0], d[1], 0]
        };
        assert(r@ =~= self.usb_packet(cable));
        r
    }
}

/// Decoder for a DIN byte stream that takes one byte at a time, so that a reader
/// may suspend between any two bytes of a message. No running status: every
/// message starts with its status byte.
pub struct DinDecoder {
    pending: Vec<u8>,
}

impl DinDecoder {
    /// The bytes of the frame received so far.
    pub closed spec fn received(&self) -> Seq<u8> {
        self.pending@
    }

    /// The bytes held are the start of a frame that is not yet complete.
    pub open spec fn wf(&self) -> bool {
        self.received().len() == 0 || self.received().len() < frame_len(self.received()[0])
    }

    /// A decoder at the start of a frame.
    pub fn new() -> (r: Self)
        ensures
            r.wf(),
            r.received() == Seq::<u8>::empty(),
    {
        DinDecoder { pending: Vec::new() }
    }

    /// Takes the next byte of the stream. Once it completes a frame, the frame is
    /// decoded and the decoder starts over; an unrecognised status byte is a frame
    /// of its own and decodes to no message.
    pub fn feed(&mut self, byte: u8) -> (r: DecodeStep)
        requires
            old(self).wf(),
        ensures
            final(self).wf(),
            ({
                let s = old(self).received().push(byte);
                if s.len() == frame_len(s[0]) {
                    r == DecodeStep::Done(decode_frame(s)) && final(self).received()
                        == Seq::<u8>::empty()
                } else {
                    r == DecodeStep::NeedMore && final(self).received() == s
                }
            }),
    {
        self.pending.push(byte);
        let n = 1 + data_len_of(self.pending[0]);
        if self.pending.len() == n {
            let m = decode_complete_frame(self.pending.as_slice());
            self.pending.clear();
            DecodeStep::Done(m)
        } else {
            DecodeStep::NeedMore
        }
    }
}

/// Decoder for the bytes of USB-MIDI packets, one byte at a time: the packet
/// header, whose Code Index Number is checked, then the DIN frame. The cable
/// number is not looked at, and the caller drops a packet's padding bytes.
pub struct UsbDecoder {
    header: Option<u8>,
    din: DinDecoder,
}

impl UsbDecoder {
    /// The bytes of the packet received so far, header first.
    pub closed spec fn received(&self) -> Seq<u8> {
        match self.header {
            Some(h) => seq![h] + self.din.received(),
            None => Seq::empty(),
        }
    }

    /// The bytes held are the start of a packet that is not yet complete.
    pub closed spec fn wf(&self) -> bool {
        &&& self.din.wf()
        &&& match self.header {
            Some(h) => cin_accepted(h),
            None => self.din.received().len() == 0,
        }
    }

    /// A decoder at the start of a packet.
    pub fn new() -> (r: Self)
        ensures
            r.wf(),
            r.received() == Seq::<u8>::empty(),
    {
        UsbDecoder { header: None, din: DinDecoder::new() }
    }

    /// Takes the next byte. A header with a Code Index Number outside the
    /// channel-voice range ends the packet at once with no message.
    pub fn feed(&mut self, byte: u8) -> (r: DecodeStep)
        requires
            old(self).wf(),
        ensures
            final(self).wf(),
            ({
                let s = old(self).received().push(byte);
                if usb_run_complete(s) {
                    r == DecodeStep::Done(decode_usb_run(s)) && final(self).received()
                        == Seq::<u8>::empty()
                } else {
                    r == DecodeStep::NeedMore && final(self).received() == s
                }
            }),
    {
        match self.header {
            None => {
                let cin = byte & 0x0f;
                if 0x8 <= cin && cin <= 0xe {
                    self.header = Some(byte);
                    assert(self.received() =~= seq![byte]);
                    DecodeStep::NeedMore
                } else {
                    DecodeStep::Done(None)
                }
            },
            Some(h) => {
                let ghost s = old(self).received().push(byte);
                let r = self.din.feed(byte);
                assert(s.drop_first() =~= old(self).din.received().push(byte));
                if let DecodeStep::Done(_) = r {
                    self.header = None;
                } else {
                    assert(self.received() =~= s);
                }
                r
            },
        }
    }
}

} // verus!

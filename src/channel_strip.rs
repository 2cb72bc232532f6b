//! Per-channel sampling state: the latest clamped sample and the one before it.
use vstd::prelude::*;

verus! {

/// Largest value a 7-bit MIDI data byte can carry.
pub const MIDI_DATA_MAX: u8 = 127;

/// The 7-bit value a raw sample clamps to.
pub open spec fn clamp7(raw: u16) -> u8 {
    if raw > 127 {
        127u8
    } else {
        raw as u8
    }
}

/// Sampling state of one physical input channel.
#[derive(Clone, Copy)]
pub struct ChannelStrip {
    current_value: u8,
    previous_value: u8,
}

impl ChannelStrip {
    /// The value taken at the latest sampling tick.
    pub closed spec fn current(&self) -> u8 {
        self.current_value
    }

    /// The value taken at the tick before the latest one.
    pub closed spec fn previous(&self) -> u8 {
        self.previous_value
    }

    /// Takes one raw sample: the old current value becomes the previous one and the
    /// sample, clamped to the 7-bit range, becomes the current one.
    pub fn process(&mut self, raw_value: u16)
        ensures
            final(self).previous() == old(self).current(),
            final(self).current() == clamp7(raw_value),
    {
        self.previous_value = self.current_value;
        self.current_value = if raw_value > MIDI_DATA_MAX as u16 {
            MIDI_DATA_MAX
        } else {
            raw_value as u8
        };
    }

    pub fn previous_value(&self) -> (r: u8)
        ensures
            r == self.previous(),
    {
        self.previous_value
    }

    pub fn value(&self) -> (r: u8)
        ensures
            r == self.current(),
    {
        self.current_value
    }

    /// Whether the latest sample differs from the one before it.
    pub fn changed(&self) -> (r: bool)
        ensures
            r == (self.current() != self.previous()),
    {
        self.current_value != self.previous_value
    }
}

impl Default for ChannelStrip {
    /// A strip as created at start-up: both values zero.
    fn default() -> (r: Self)
        ensures
            r.current() == 0,
            r.previous() == 0,
    {
        ChannelStrip { current_value: 0, previous_value: 0 }
    }
}

/// Clamping: a sample above 127 becomes 127, any other sample stays as it is, and
/// clamping a clamped value changes nothing.
pub proof fn lemma_clamp(raw: u16)
    ensures
        raw > 127 ==> clamp7(raw) == 127,
        raw <= 127 ==> clamp7(raw) == raw,
        clamp7(clamp7(raw) as u16) == clamp7(raw),
{
}

/// Change detection: after a strip has processed `a` and then `b`, it reports a
/// change exactly when the two samples clamp to different values.
pub proof fn lemma_change_detection(before: ChannelStrip, mid: ChannelStrip, after: ChannelStrip, a: u16, b: u16)
    requires
        mid.previous() == before.current(),
        mid.current() == clamp7(a),
        after.previous() == mid.current(),
        after.current() == clamp7(b),
    ensures
        (after.current() != after.previous()) == (clamp7(a) != clamp7(b)),
{
}

} // verus!

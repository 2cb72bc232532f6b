//! Per-channel settings: input mode, switch values, continuous range and drive,
//! Control Change number and display label.
use vstd::prelude::*;
use vstd::utf8::valid_utf8;
use vstd::string::StringSliceAdditionalSpecFns;

verus! {

/// Size of a channel label buffer in bytes.
pub const LABEL_SIZE: usize = 32;

/// The values a switch input sends.
#[derive(Debug, Clone, Copy, PartialEq, Eq, Structural)]
pub struct SwitchConfig {
    pub released_value: u8,
    pub pressed_value: u8,
}

impl Default for SwitchConfig {
    fn default() -> (r: Self)
        ensures
            r.released_value == 0,
            r.pressed_value == 127,
    {
        SwitchConfig { released_value: 0, pressed_value: 127 }
    }
}

/// The input range a continuous input reads, the output range it maps onto, and
/// the drive that bends the response curve (64 is linear).
#[derive(Debug, Clone, Copy, PartialEq, Eq, Structural)]
pub struct ContinuousConfig {
    pub minimum_input: u8,
    pub maximum_input: u8,
    pub minimum_output: u8,
    pub maximum_output: u8,
    pub drive: u8,
}

impl Default for ContinuousConfig {
    fn default() -> (r: Self)
        ensures
            r.minimum_input == 0,
            r.maximum_input == 127,
            r.minimum_output == 0,
            r.maximum_output == 127,
            r.drive == 64,
    {
        ContinuousConfig {
            minimum_input: 0,
            maximum_input: 127,
            minimum_output: 0,
            maximum_output: 127,
            drive: 64,
        }
    }
}

/// How a channel's samples become Control Change values.
#[derive(Debug, Clone, Copy, PartialEq, Eq, Structural)]
pub enum InputMode {
    Switch,
    Continuous,
    MomentaryAsToggle,
    ToggleAsMomentary,
}

impl Default for InputMode {
    fn default() -> (r: Self)
        ensures
            r == InputMode::Continuous,
    {
        InputMode::Continuous
    }
}

/// Switch values of a new channel: 0 released, 127 pressed.
pub open spec fn default_switch() -> SwitchConfig {
    SwitchConfig { released_value: 0, pressed_value: 127 }
}

/// Continuous settings of a new channel: full range in and out, linear response.
pub open spec fn default_continuous() -> ContinuousConfig {
    ContinuousConfig {
        minimum_input: 0,
        maximum_input: 127,
        minimum_output: 0,
        maximum_output: 127,
        drive: 64,
    }
}

/// Input settings of a new channel: continuous mode with the default values.
pub open spec fn default_input() -> InputConfig {
    InputConfig { mode: InputMode::Continuous, switch: default_switch(), continuous: default_continuous() }
}

/// The input settings of a channel.
#[derive(Debug, Clone, Copy, PartialEq, Eq, Structural)]
pub struct InputConfig {
    pub mode: InputMode,
    pub switch: SwitchConfig,
    pub continuous: ContinuousConfig,
}

impl Default for InputConfig {
    fn default() -> (r: Self)
        ensures
            r.mode == InputMode::Continuous,
            r.switch == default_switch(),
            r.continuous == default_continuous(),
    {
        InputConfig {
            mode: InputMode::default(),
            switch: SwitchConfig::default(),
            continuous: ContinuousConfig::default(),
        }
    }
}

/// The label buffer that holds the given bytes, cut to the buffer's size and
/// padded with NUL bytes.
pub open spec fn label_of(bytes: Seq<u8>) -> Seq<u8> {
    Seq::new(LABEL_SIZE as nat, |i: int| if i < bytes.len() { bytes[i] } else { 0u8 })
}

/// Where the text of a label buffer ends: at its first NUL byte, or at its end.
pub open spec fn label_end(label: Seq<u8>) -> int {
    if exists|i: int| 0 <= i < label.len() && label[i] == 0 {
        choose|i: int|
            0 <= i < label.len() && label[i] == 0 && forall|j: int| 0 <= j < i ==> label[j] != 0
    } else {
        label.len() as int
    }
}

/// The bytes of the text a label buffer holds: those before its first NUL byte
/// when they are valid UTF-8, and none otherwise.
pub open spec fn label_text(label: Seq<u8>) -> Seq<u8> {
    let t = label.subrange(0, label_end(label));
    if valid_utf8(t) {
        t
    } else {
        Seq::empty()
    }
}

/// All settings of one channel.
#[derive(Debug, Clone, Copy)]
pub struct ChannelConfig {
    pub input: InputConfig,
    pub cc: u8,
    pub label: [u8; 32],
}

impl Default for ChannelConfig {
    fn default() -> (r: Self)
        ensures
            r.input == default_input(),
            r.cc == 0,
            r.label@ == Seq::new(LABEL_SIZE as nat, |i: int| 0u8),
    {
        let r = ChannelConfig { input: InputConfig::default(), cc: 0, label: [0u8; 32] };
        assert(r.label@ =~= Seq::new(LABEL_SIZE as nat, |i: int| 0u8));
        r
    }
}

/// Relies on std::str::from_utf8: `Ok` exactly when the bytes are valid UTF-8,
/// and then a string slice over those same bytes.
#[verifier::external_body]
fn str_from_utf8(bytes: &[u8]) -> (r: Option<&str>)
    ensures
        r is Some <==> valid_utf8(bytes@),
        r matches Some(s) ==> s.spec_bytes() == bytes@,
{
    std::str::from_utf8(bytes).ok()
}

impl ChannelConfig {
    /// Default settings for the channel at `index`, whose Control Change number is
    /// the index (modulo 256).
    pub fn default_with_index(index: usize) -> (r: Self)
        ensures
            r.input == default_input(),
            r.cc == index as u8,
            r.label@ == Seq::new(LABEL_SIZE as nat, |i: int| 0u8),
    {
        let mut config = ChannelConfig::default();
        config.cc = index as u8;
        config
    }

    pub fn with_input_mode(self, mode: InputMode) -> (r: Self)
        ensures
            r == (ChannelConfig { input: InputConfig { mode, ..self.input }, ..self }),
    {
        let mut r = self;
        r.input.mode = mode;
        r
    }

    pub fn with_released_value(self, value: u8) -> (r: Self)
        ensures
            r == (ChannelConfig {
                input: InputConfig {
                    switch: SwitchConfig { released_value: value, ..self.input.switch },
                    ..self.input
                },
                ..self
            }),
    {
        let mut r = self;
        r.input.switch.released_value = value;
        r
    }

    pub fn with_pressed_value(self, value: u8) -> (r: Self)
        ensures
            r == (ChannelConfig {
                input: InputConfig {
                    switch: SwitchConfig { pressed_value: value, ..self.input.switch },
                    ..self.input
                },
                ..self
            }),
    {
        let mut r = self;
        r.input.switch.pressed_value = value;
        r
    }

    pub fn with_minimum_input(self, value: u8) -> (r: Self)
        ensures
            r == (ChannelConfig {
                input: InputConfig {
                    continuous: ContinuousConfig { minimum_input: value, ..self.input.continuous },
                    ..self.input
                },
                ..self
            }),
    {
        let mut r = self;
        r.input.continuous.minimum_input = value;
        r
    }

    pub fn with_maximum_input(self, value: u8) -> (r: Self)
        ensures
            r == (ChannelConfig {
                input: InputConfig {
                    continuous: ContinuousConfig { maximum_input: value, ..self.input.continuous },
                    ..self.input
                },
                ..self
            }),
    {
        let mut r = self;
        r.input.continuous.maximum_input = value;
        r
    }

    pub fn with_minimum_output(self, value: u8) -> (r: Self)
        ensures
            r == (ChannelConfig {
                input: InputConfig {
                    continuous: ContinuousConfig { minimum_output: value, ..self.input.continuous },
                    ..self.input
                },
                ..self
            }),
    {
        let mut r = self;
        r.input.continuous.minimum_output = value;
        r
    }

    pub fn with_maximum_output(self, value: u8) -> (r: Self)
        ensures
            r == (ChannelConfig {
                input: InputConfig {
                    continuous: ContinuousConfig { maximum_output: value, ..self.input.continuous },
                    ..self.input
                },
                ..self
            }),
    {
        let mut r = self;
        r.input.continuous.maximum_output = value;
        r
    }

    pub fn with_drive(self, value: u8) -> (r: Self)
        ensures
            r == (ChannelConfig {
                input: InputConfig {
                    continuous: ContinuousConfig { drive: value, ..self.input.continuous },
                    ..self.input
                },
                ..self
            }),
    {
        let mut r = self;
        r.input.continuous.drive = value;
        r
    }

    pub fn with_cc(self, value: u8) -> (r: Self)
        ensures
            r == (ChannelConfig { cc: value, ..self }),
    {
        let mut r = self;
        r.cc = value;
        r
    }

    pub fn with_label(self, label: [u8; 32]) -> (r: Self)
        ensures
            r == (ChannelConfig { label, ..self }),
    {
        let mut r = self;
        r.label = label;
        r
    }

    /// Sets the label to the bytes of `label_str`, cut to the buffer's size and
    /// padded with NUL bytes.
    pub fn with_label_str(self, label_str: &str) -> (r: Self)
        ensures
            r.input == self.input,
            r.cc == self.cc,
            r.label@ == label_of(label_str.spec_bytes()),
    {
        let bytes = label_str.as_bytes();
        let mut label = [0u8; 32];
        let mut i: usize = 0;
        while i < LABEL_SIZE
            invariant
                i <= LABEL_SIZE,
                bytes@ == label_str.spec_bytes(),
                forall|j: int| 0 <= j < i ==> label@[j] == label_of(bytes@)[j],
            decreases LABEL_SIZE - i,
        {
            let b = if i < bytes.len() {
                bytes[i]
            } else {
                0
            };
            label[i] = b;
            i += 1;
        }
        let mut r = self;
        r.label = label;
        assert(r.label@ =~= label_of(label_str.spec_bytes()));
        r
    }

    /// The label's text: the bytes before its first NUL byte, or the empty string
    /// when those are not valid UTF-8.
    pub fn label_as_str(&self) -> (r: &str)
        ensures
            r.spec_bytes() == label_text(self.label@),
    {
        let mut end: usize = 0;
        while end < LABEL_SIZE && self.label[end] != 0
            invariant
                end <= LABEL_SIZE,
                forall|j: int| 0 <= j < end ==> self.label@[j] != 0,
            decreases LABEL_SIZE - end,
        {
            end += 1;
        }
        proof {
            let l = self.label@;
            if exists|i: int| 0 <= i < l.len() && l[i] == 0 {
                let k = label_end(l);
                assert(0 <= k < l.len() && l[k] == 0 && forall|j: int| 0 <= j < k ==> l[j] != 0);
                if k < end {
                    assert(l[k] != 0);
                }
                if end < k {
                    assert(l[end as int] != 0);
                }
            } else if end < LABEL_SIZE {
                assert(l[end as int] == 0);
            }
        }
        let (text, _) = self.label.as_slice().split_at(end);
        match str_from_utf8(text) {
            Some(s) => s,
            None => {
                proof {
                    reveal_strlit("");
                }
                ""
            },
        }
    }
}

/// The settings of every channel of a device with `CHANNELS` inputs.
#[derive(Debug)]
pub struct DeviceConfig<const CHANNELS: usize> {
    pub channels: [ChannelConfig; CHANNELS],
}

impl Default for DeviceConfig<4> {
    /// Default settings for each of the four channels, channel `i` sending Control
    /// Change number `i`.
    fn default() -> (r: Self)
        ensures
            forall|i: int|
                0 <= i < 4 ==> (#[trigger] r.channels@[i]).input == default_input()
                    && r.channels@[i].cc == i && r.channels@[i].label@ == Seq::new(
                    LABEL_SIZE as nat,
                    |j: int| 0u8,
                ),
    {
        DeviceConfig {
            channels: [
                ChannelConfig::default_with_index(0),
                ChannelConfig::default_with_index(1),
                ChannelConfig::default_with_index(2),
                ChannelConfig::default_with_index(3),
            ],
        }
    }
}

} // verus!

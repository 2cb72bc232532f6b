//! The input mapper: turns a channel's latest samples into at most one Control
//! Change value per tick, according to the channel's input mode.
use vstd::prelude::*;
use vstd::arithmetic::div_mod::{lemma_div_is_ordered, lemma_div_multiples_vanish, lemma_div_denominator};
use crate::channel_strip::{clamp7, ChannelStrip};
use crate::session::OUTPUT_CHANNEL;
use crate::device_config::{ChannelConfig, ContinuousConfig, InputConfig, InputMode, SwitchConfig};
use crate::message::MidiMessage;

verus! {

/// Samples at or above this value read as "pressed" in the switch modes.
pub const SWITCH_THRESHOLD: u8 = 64;

/// Drive value at which the continuous response is linear.
pub const NEUTRAL_DRIVE: u8 = 64;

/// Whether a sample reads as "pressed".
pub open spec fn is_pressed(v: u8) -> bool {
    v >= SWITCH_THRESHOLD
}

/// The bend of the response curve for a drive value: drive minus 64, capped at 64,
/// so between -64 and 64.
pub open spec fn bend(drive: u8) -> int {
    if drive >= 128 {
        64
    } else {
        drive - 64
    }
}

/// The curve at step `t` of `s` input steps, scaled by `64 * s * s`: the linear
/// part `64 * s * t` plus the bend times `t * (s - t)`, which is zero at both ends.
pub open spec fn curve(s: int, t: int, k: int) -> int {
    64 * s * t + k * t * (s - t)
}

/// Whether the continuous ranges are ordered; unordered ones map everything to the
/// minimum output.
pub open spec fn ranges_ordered(c: ContinuousConfig) -> bool {
    c.minimum_input <= c.maximum_input && c.minimum_output <= c.maximum_output
}

/// How far above the minimum output a sample strictly inside the input range
/// lands.
pub open spec fn curve_offset(c: ContinuousConfig, v: u8) -> int {
    let s = c.maximum_input - c.minimum_input;
    let t = v - c.minimum_input;
    let o = c.maximum_output - c.minimum_output;
    o * curve(s, t, bend(c.drive)) / (64 * s * s)
}

/// The output value of a continuous input for a sample: the input range mapped
/// onto the output range along the drive's curve, clamped to the output range
/// outside the input range.
pub open spec fn map_continuous(c: ContinuousConfig, v: u8) -> u8 {
    if !ranges_ordered(c) {
        c.minimum_output
    } else if v <= c.minimum_input {
        c.minimum_output
    } else if v >= c.maximum_input {
        c.maximum_output
    } else {
        (c.minimum_output + curve_offset(c, v)) as u8
    }
}

/// The value a switch sends in a state.
pub open spec fn switch_value(c: SwitchConfig, pressed: bool) -> u8 {
    if pressed {
        c.pressed_value
    } else {
        c.released_value
    }
}

/// The curve stays within `[0, 64 * s * s]` inside the input range.
proof fn lemma_curve_bounds(s: int, t: int, k: int)
    requires
        0 <= t <= s,
        -64 <= k <= 64,
    ensures
        0 <= curve(s, t, k) <= 64 * s * s,
{
    assert(0 <= t * (s - t)) by (nonlinear_arith)
        requires
            0 <= t <= s,
    ;
    assert(k * (t * (s - t)) <= 64 * (t * (s - t))) by (nonlinear_arith)
        requires
            k <= 64,
            0 <= t * (s - t),
    ;
    assert(-64 * (t * (s - t)) <= k * (t * (s - t))) by (nonlinear_arith)
        requires
            -64 <= k,
            0 <= t * (s - t),
    ;
    assert(0 <= 64 * s * t - 64 * (t * (s - t))) by (nonlinear_arith)
        requires
            0 <= t <= s,
    ;
    assert(64 * s * t + 64 * (t * (s - t)) <= 64 * s * s) by (nonlinear_arith)
        requires
            0 <= t <= s,
    ;
    assert(k * t * (s - t) == k * (t * (s - t))) by (nonlinear_arith);
}

/// The curve does not decrease from step `a` to step `b`.
proof fn lemma_curve_monotonic(s: int, a: int, b: int, k: int)
    requires
        0 <= a <= b <= s,
        -64 <= k <= 64,
    ensures
        curve(s, a, k) <= curve(s, b, k),
{
    let x = 64 * s + k * (s - a - b);
    assert(b * (s - b) - a * (s - a) == (b - a) * (s - a - b)) by (nonlinear_arith);
    assert(k * b * (s - b) == k * (b * (s - b))) by (nonlinear_arith);
    assert(k * a * (s - a) == k * (a * (s - a))) by (nonlinear_arith);
    assert(k * (b * (s - b)) - k * (a * (s - a)) == k * ((b - a) * (s - a - b))) by (nonlinear_arith)
        requires
            b * (s - b) - a * (s - a) == (b - a) * (s - a - b),
    ;
    assert(64 * s * b - 64 * s * a == 64 * s * (b - a)) by (nonlinear_arith);
    assert((b - a) * x == 64 * s * (b - a) + k * ((b - a) * (s - a - b))) by (nonlinear_arith)
        requires
            x == 64 * s + k * (s - a - b),
    ;
    assert(0 <= x) by (nonlinear_arith)
        requires
            0 <= a <= b <= s,
            -64 <= k <= 64,
            x == 64 * s + k * (s - a - b),
    ;
    assert(0 <= (b - a) * x) by (nonlinear_arith)
        requires
            0 <= b - a,
            0 <= x,
    ;
}

/// Inside the input range the offset stays within the output range.
proof fn lemma_offset_bounds(c: ContinuousConfig, v: u8)
    requires
        ranges_ordered(c),
        c.minimum_input < v < c.maximum_input,
    ensures
        0 <= curve_offset(c, v) <= c.maximum_output - c.minimum_output,
{
    let s = c.maximum_input - c.minimum_input;
    let t = v - c.minimum_input;
    let o = c.maximum_output - c.minimum_output;
    let n = curve(s, t, bend(c.drive));
    let d = 64 * s * s;
    lemma_curve_bounds(s, t, bend(c.drive));
    assert(0 < d) by (nonlinear_arith)
        requires
            s > 0,
            d == 64 * s * s,
    ;
    assert(0 <= o * n <= o * d) by (nonlinear_arith)
        requires
            0 <= o,
            0 <= n <= d,
    ;
    lemma_div_is_ordered(0, o * n, d);
    lemma_div_is_ordered(o * n, o * d, d);
    lemma_div_multiples_vanish(o, d);
    assert(o * d == d * o) by (nonlinear_arith);
}

/// Continuous mapping is monotonic: for any fixed configuration, a larger sample
/// never maps to a smaller output value.
pub proof fn lemma_continuous_monotonic(c: ContinuousConfig, a: u8, b: u8)
    requires
        a <= b,
    ensures
        map_continuous(c, a) <= map_continuous(c, b),
{
    if ranges_ordered(c) {
        if c.minimum_input < a < c.maximum_input {
            lemma_offset_bounds(c, a);
        }
        if c.minimum_input < b < c.maximum_input {
            lemma_offset_bounds(c, b);
        }
        if c.minimum_input < a && b < c.maximum_input {
            let s = c.maximum_input - c.minimum_input;
            let o = c.maximum_output - c.minimum_output;
            let k = bend(c.drive);
            let na = curve(s, a - c.minimum_input, k);
            let nb = curve(s, b - c.minimum_input, k);
            lemma_curve_monotonic(s, a - c.minimum_input, b - c.minimum_input, k);
            assert(o * na <= o * nb) by (nonlinear_arith)
                requires
                    0 <= o,
                    na <= nb,
            ;
            assert(0 < 64 * s * s) by (nonlinear_arith)
                requires
                    s > 0,
            ;
            lemma_div_is_ordered(o * na, o * nb, 64 * s * s);
        }
    }
}

/// With ordered ranges the ends of the input range map to the ends of the output
/// range, whatever the drive.
pub proof fn lemma_continuous_endpoints(c: ContinuousConfig)
    requires
        ranges_ordered(c),
        c.minimum_input < c.maximum_input,
    ensures
        map_continuous(c, c.minimum_input) == c.minimum_output,
        map_continuous(c, c.maximum_input) == c.maximum_output,
{
}

/// At the neutral drive the response is linear: the offset is the output span
/// times the input step, divided by the input span (rounded down).
pub proof fn lemma_continuous_linear_at_neutral(c: ContinuousConfig, v: u8)
    requires
        ranges_ordered(c),
        c.drive == NEUTRAL_DRIVE,
        c.minimum_input < v < c.maximum_input,
    ensures
        map_continuous(c, v) == c.minimum_output + (c.maximum_output - c.minimum_output) * (v
            - c.minimum_input) / (c.maximum_input - c.minimum_input),
{
    let s = c.maximum_input - c.minimum_input;
    let t = v - c.minimum_input;
    let o = c.maximum_output - c.minimum_output;
    lemma_offset_bounds(c, v);
    assert(o * curve(s, t, 0) == (64 * s) * (o * t)) by (nonlinear_arith);
    assert(64 * s * s == (64 * s) * s) by (nonlinear_arith);
    assert(0 < 64 * s) by (nonlinear_arith)
        requires
            s > 0,
    ;
    lemma_div_denominator((64 * s) * (o * t), 64 * s, s);
    lemma_div_multiples_vanish(o * t, 64 * s);
}

/// The output value of a continuous input for a sample (see `map_continuous`).
/// Never fails: unordered ranges give the minimum output.
pub fn map_continuous_value(c: &ContinuousConfig, v: u8) -> (r: u8)
    ensures
        r == map_continuous(*c, v),
        ranges_ordered(*c) ==> c.minimum_output <= r <= c.maximum_output,
        !ranges_ordered(*c) ==> r == c.minimum_output,
{
    if c.minimum_input > c.maximum_input || c.minimum_output > c.maximum_output {
        return c.minimum_output;
    }
    if v <= c.minimum_input {
        return c.minimum_output;
    }
    if v >= c.maximum_input {
        return c.maximum_output;
    }
    let s = (c.maximum_input - c.minimum_input) as u64;
    let t = (v - c.minimum_input) as u64;
    let o = (c.maximum_output - c.minimum_output) as u64;
    proof {
        lemma_offset_bounds(*c, v);
        lemma_curve_bounds(s as int, t as int, bend(c.drive));
        assert(s * t <= 255 * 255 && t * (s - t) <= 255 * 255) by (nonlinear_arith)
            requires
                0 < t < s <= 255,
        ;
        assert(s * s <= 255 * 255) by (nonlinear_arith)
            requires
                s <= 255,
        ;
        assert(64 * s * t <= 64 * (255 * 255)) by (nonlinear_arith)
            requires
                0 < t < s <= 255,
        ;
    }
    let linear = 64 * s * t;
    let n: u64 = if c.drive >= NEUTRAL_DRIVE {
        let k: u64 = if c.drive >= 128 { 64 } else { (c.drive - NEUTRAL_DRIVE) as u64 };
        proof {
            assert(k * t <= 64 * 255) by (nonlinear_arith)
                requires
                    k <= 64,
                    t <= 255,
            ;
            assert(k * t * (s - t) <= 64 * (255 * 255)) by (nonlinear_arith)
                requires
                    k <= 64,
                    t * (s - t) <= 255 * 255,
            ;
            assert(curve(s as int, t as int, bend(c.drive)) == linear + k * t * (s - t));
        }
        linear + k * t * (s - t)
    } else {
        let k: u64 = (NEUTRAL_DRIVE - c.drive) as u64;
        proof {
            assert(k * t <= 64 * 255) by (nonlinear_arith)
                requires
                    k <= 64,
                    t <= 255,
            ;
            assert(k * t * (s - t) <= 64 * (255 * 255)) by (nonlinear_arith)
                requires
                    k <= 64,
                    t * (s - t) <= 255 * 255,
            ;
            assert(bend(c.drive) * t * (s - t) == -(k * t * (s - t))) by (nonlinear_arith)
                requires
                    bend(c.drive) == -k,
            ;
        }
        linear - k * t * (s - t)
    };
    proof {
        assert(o * n <= 255 * (64 * (255 * 255))) by (nonlinear_arith)
            requires
                o <= 255,
                n <= 64 * s * s,
                s * s <= 255 * 255,
        ;
        assert(0 < 64 * s * s <= 64 * (255 * 255)) by (nonlinear_arith)
            requires
                0 < s <= 255,
        ;
    }
    let offset = o * n / (64 * s * s);
    (c.minimum_output as u64 + offset) as u8
}

/// One Control Change value for a channel's configured control number.
#[derive(Debug, Clone, Copy, PartialEq, Eq, Structural)]
pub struct ControlEvent {
    pub cc: u8,
    pub value: u8,
}

impl ControlEvent {
    /// The Control Change message that sends this event on a MIDI channel.
    pub fn to_message(self, channel: u8) -> (r: MidiMessage)
        ensures
            r == MidiMessage::ControlChange(channel, self.cc, self.value),
    {
        MidiMessage::ControlChange(channel, self.cc, self.value)
    }
}

/// The mapper's own state for one channel: the toggle bit of the
/// momentary-as-toggle mode and the release that the toggle-as-momentary mode
/// owes on the tick after a press.
#[derive(Debug, Clone, Copy, PartialEq, Eq, Structural)]
pub struct ChannelMapper {
    pub toggled: bool,
    pub release_pending: bool,
}

/// One tick of the mapper for a channel whose previous and current samples are
/// `prev` and `cur`: the mapper's next state and the value to send, if any.
/// - Continuous: the mapped current value, when it differs from the mapped
///   previous one.
/// - Switch: on each change between released and pressed, the value of the new
///   state.
/// - MomentaryAsToggle: each press flips the toggle bit and sends the value of its
///   new state; releases send nothing.
/// - ToggleAsMomentary: a press sends the pressed value, and the next tick sends
///   the released value.
pub open spec fn mapper_step(m: ChannelMapper, c: InputConfig, cc: u8, prev: u8, cur: u8) -> (
    ChannelMapper,
    Option<ControlEvent>,
) {
    let rising = !is_pressed(prev) && is_pressed(cur);
    match c.mode {
        InputMode::Continuous => {
            let out = map_continuous(c.continuous, cur);
            if out != map_continuous(c.continuous, prev) {
                (m, Some(ControlEvent { cc, value: out }))
            } else {
                (m, None)
            }
        },
        InputMode::Switch => {
            if is_pressed(cur) != is_pressed(prev) {
                (m, Some(ControlEvent { cc, value: switch_value(c.switch, is_pressed(cur)) }))
            } else {
                (m, None)
            }
        },
        InputMode::MomentaryAsToggle => {
            if rising {
                (
                    ChannelMapper { toggled: !m.toggled, ..m },
                    Some(ControlEvent { cc, value: switch_value(c.switch, !m.toggled) }),
                )
            } else {
                (m, None)
            }
        },
        InputMode::ToggleAsMomentary => {
            if m.release_pending {
                (
                    ChannelMapper { release_pending: false, ..m },
                    Some(ControlEvent { cc, value: c.switch.released_value }),
                )
            } else if rising {
                (
                    ChannelMapper { release_pending: true, ..m },
                    Some(ControlEvent { cc, value: c.switch.pressed_value }),
                )
            } else {
                (m, None)
            }
        },
    }
}

impl ChannelMapper {
    /// A mapper at start-up: toggle off, no release owed.
    pub fn new() -> (r: Self)
        ensures
            !r.toggled,
            !r.release_pending,
    {
        ChannelMapper { toggled: false, release_pending: false }
    }

    /// Evaluates one tick of a channel from its configuration and its strip: at
    /// most one event, as `mapper_step` gives it.
    pub fn evaluate(&mut self, config: &ChannelConfig, strip: &ChannelStrip) -> (r: Option<
        ControlEvent,
    >)
        ensures
            (*final(self), r) == mapper_step(
                *old(self),
                config.input,
                config.cc,
                strip.previous(),
                strip.current(),
            ),
    {
        let cur = strip.value();
        let prev = strip.previous_value();
        let cc = config.cc;
        let sw = config.input.switch;
        let rising = prev < SWITCH_THRESHOLD && cur >= SWITCH_THRESHOLD;
        match config.input.mode {
            InputMode::Continuous => {
                if !strip.changed() {
                    return None;
                }
                let out = map_continuous_value(&config.input.continuous, cur);
                if out != map_continuous_value(&config.input.continuous, prev) {
                    Some(ControlEvent { cc, value: out })
                } else {
                    None
                }
            },
            InputMode::Switch => {
                let pressed = cur >= SWITCH_THRESHOLD;
                if pressed != (prev >= SWITCH_THRESHOLD) {
                    let value = if pressed {
                        sw.pressed_value
                    } else {
                        sw.released_value
                    };
                    Some(ControlEvent { cc, value })
                } else {
                    None
                }
            },
            InputMode::MomentaryAsToggle => {
                if rising {
                    self.toggled = !self.toggled;
                    let value = if self.toggled {
                        sw.pressed_value
                    } else {
                        sw.released_value
                    };
                    Some(ControlEvent { cc, value })
                } else {
                    None
                }
            },
            InputMode::ToggleAsMomentary => {
                if self.release_pending {
                    self.release_pending = false;
                    Some(ControlEvent { cc, value: sw.released_value })
                } else if rising {
                    self.release_pending = true;
                    Some(ControlEvent { cc, value: sw.pressed_value })
                } else {
                    None
                }
            },
        }
    }
}

/// One sampling tick of a channel: the strip takes the raw sample, the mapper
/// evaluates the channel, and an event becomes a Control Change message on the
/// output MIDI channel.
pub fn sample_channel(
    strip: &mut ChannelStrip,
    mapper: &mut ChannelMapper,
    config: &ChannelConfig,
    raw: u16,
) -> (r: Option<MidiMessage>)
    ensures
        final(strip).previous() == old(strip).current(),
        final(strip).current() == clamp7(raw),
        ({
            let (m, e) = mapper_step(
                *old(mapper),
                config.input,
                config.cc,
                old(strip).current(),
                clamp7(raw),
            );
            &&& *final(mapper) == m
            &&& r == match e {
                Some(ev) => Some(MidiMessage::ControlChange(OUTPUT_CHANNEL, ev.cc, ev.value)),
                None => None,
            }
        }),
{
    strip.process(raw);
    match mapper.evaluate(config, strip) {
        Some(event) => Some(event.to_message(OUTPUT_CHANNEL)),
        None => None,
    }
}

} // verus!

use midi_expressor::channel_strip::ChannelStrip;
use midi_expressor::device_config::{ChannelConfig, ContinuousConfig, InputMode};
use midi_expressor::mapper::{map_continuous_value, sample_channel, ChannelMapper, ControlEvent};
use midi_expressor::message::MidiMessage;

fn run(config: &ChannelConfig, raws: &[u16]) -> Vec<u8> {
    let mut strip = ChannelStrip::default();
    let mut mapper = ChannelMapper::new();
    let mut out = Vec::new();
    for raw in raws {
        strip.process(*raw);
        if let Some(e) = mapper.evaluate(config, &strip) {
            assert_eq!(e.cc, config.cc);
            out.push(e.value);
        }
    }
    out
}

fn cont(min_in: u8, max_in: u8, min_out: u8, max_out: u8, drive: u8) -> ContinuousConfig {
    ContinuousConfig { minimum_input: min_in, maximum_input: max_in, minimum_output: min_out, maximum_output: max_out, drive }
}

#[test]
fn switch_emits_only_on_transitions() {
    let config = ChannelConfig::default_with_index(0)
        .with_input_mode(InputMode::Switch)
        .with_released_value(0)
        .with_pressed_value(127);
    assert_eq!(run(&config, &[0, 0, 127, 127, 0]), vec![127, 0]);
}

#[test]
fn switch_uses_configured_values() {
    let config = ChannelConfig::default_with_index(3)
        .with_input_mode(InputMode::Switch)
        .with_released_value(10)
        .with_pressed_value(90);
    assert_eq!(run(&config, &[100, 63, 64, 64, 20]), vec![90, 10, 90, 10]);
}

#[test]
fn momentary_as_toggle() {
    let config = ChannelConfig::default_with_index(1).with_input_mode(InputMode::MomentaryAsToggle);
    assert_eq!(run(&config, &[127, 0, 127, 0, 0, 127]), vec![127, 0, 127]);
}

#[test]
fn toggle_as_momentary() {
    let config = ChannelConfig::default_with_index(1).with_input_mode(InputMode::ToggleAsMomentary);
    assert_eq!(run(&config, &[0, 127, 127, 127, 0, 0, 127, 0]), vec![127, 0, 127, 0]);
}

#[test]
fn continuous_default_is_identity() {
    let config = ChannelConfig::default_with_index(2);
    assert_eq!(run(&config, &[0, 10, 10, 500, 64]), vec![10, 127, 64]);
}

#[test]
fn continuous_values() {
    assert_eq!(map_continuous_value(&cont(0, 127, 0, 127, 64), 64), 64);
    assert_eq!(map_continuous_value(&cont(0, 127, 0, 127, 128), 64), 95);
    assert_eq!(map_continuous_value(&cont(0, 127, 0, 127, 255), 64), 95);
    assert_eq!(map_continuous_value(&cont(0, 127, 0, 127, 0), 64), 32);
    assert_eq!(map_continuous_value(&cont(20, 100, 10, 110, 64), 60), 60);
    assert_eq!(map_continuous_value(&cont(20, 100, 10, 110, 96), 60), 72);
}

#[test]
fn continuous_clamps_and_keeps_endpoints() {
    for drive in [0u8, 30, 64, 100, 200] {
        let c = cont(20, 100, 10, 110, drive);
        assert_eq!(map_continuous_value(&c, 0), 10);
        assert_eq!(map_continuous_value(&c, 20), 10);
        assert_eq!(map_continuous_value(&c, 100), 110);
        assert_eq!(map_continuous_value(&c, 127), 110);
    }
}

#[test]
fn continuous_is_monotonic() {
    for drive in [0u8, 1, 32, 64, 65, 127, 128, 255] {
        let c = cont(5, 120, 3, 125, drive);
        let mut last = 0u8;
        for v in 0u8..=127 {
            let out = map_continuous_value(&c, v);
            assert!(out >= last);
            last = out;
        }
    }
}

#[test]
fn unordered_ranges_give_minimum_output() {
    assert_eq!(map_continuous_value(&cont(100, 20, 10, 110, 64), 60), 10);
    assert_eq!(map_continuous_value(&cont(20, 100, 110, 10, 64), 90), 110);
}

#[test]
fn continuous_emits_only_changed_mapped_values() {
    let config = ChannelConfig::default_with_index(0).with_minimum_output(0).with_maximum_output(1);
    assert_eq!(run(&config, &[1, 2, 3, 127, 126]), vec![1, 0]);
}

#[test]
fn control_event_message() {
    let e = ControlEvent { cc: 7, value: 100 };
    assert_eq!(e.to_message(2), MidiMessage::ControlChange(2, 7, 100));
}

#[test]
fn sample_channel_sends_control_change() {
    let config = ChannelConfig::default_with_index(5).with_input_mode(InputMode::Switch).with_pressed_value(100);
    let mut strip = ChannelStrip::default();
    let mut mapper = ChannelMapper::new();
    assert_eq!(sample_channel(&mut strip, &mut mapper, &config, 0), None);
    assert_eq!(sample_channel(&mut strip, &mut mapper, &config, 900), Some(MidiMessage::ControlChange(0, 5, 100)));
    assert_eq!(strip.value(), 127);
    assert_eq!(sample_channel(&mut strip, &mut mapper, &config, 900), None);
}

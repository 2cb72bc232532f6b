use midi_expressor::device_config::{ChannelConfig, DeviceConfig, InputMode};
use midi_expressor::editor::{App, Message};

#[test]
fn defaults() {
    let c = ChannelConfig::default_with_index(3);
    assert_eq!(c.cc, 3);
    assert_eq!(c.input.mode, InputMode::Continuous);
    assert_eq!(c.input.switch.released_value, 0);
    assert_eq!(c.input.switch.pressed_value, 127);
    assert_eq!(c.input.continuous.minimum_input, 0);
    assert_eq!(c.input.continuous.maximum_input, 127);
    assert_eq!(c.input.continuous.minimum_output, 0);
    assert_eq!(c.input.continuous.maximum_output, 127);
    assert_eq!(c.input.continuous.drive, 64);
    assert_eq!(c.label, [0u8; 32]);
    assert_eq!(c.label_as_str(), "");
    let d = DeviceConfig::<4>::default();
    for (i, ch) in d.channels.iter().enumerate() {
        assert_eq!(ch.cc as usize, i);
    }
}

#[test]
fn builders_set_one_field() {
    let c = ChannelConfig::default_with_index(0)
        .with_minimum_input(1)
        .with_maximum_input(2)
        .with_minimum_output(3)
        .with_maximum_output(4)
        .with_drive(5)
        .with_cc(6);
    assert_eq!(c.input.continuous.minimum_input, 1);
    assert_eq!(c.input.continuous.maximum_input, 2);
    assert_eq!(c.input.continuous.minimum_output, 3);
    assert_eq!(c.input.continuous.maximum_output, 4);
    assert_eq!(c.input.continuous.drive, 5);
    assert_eq!(c.cc, 6);
    assert_eq!(c.input.mode, InputMode::Continuous);
}

#[test]
fn labels() {
    let c = ChannelConfig::default_with_index(0).with_label_str("Expression");
    assert_eq!(c.label_as_str(), "Expression");
    assert_eq!(&c.label[..10], b"Expression");
    assert!(c.label[10..].iter().all(|b| *b == 0));
    let long = "abcdefghijklmnopqrstuvwxyz0123456789";
    assert_eq!(ChannelConfig::default_with_index(0).with_label_str(long).label_as_str(), &long[..32]);
    let mut raw = [0u8; 32];
    raw[0] = 0xFF;
    raw[1] = b'a';
    assert_eq!(ChannelConfig::default_with_index(0).with_label(raw).label_as_str(), "");
    let mut raw = [b'x'; 32];
    raw[2] = 0;
    assert_eq!(ChannelConfig::default_with_index(0).with_label(raw).label_as_str(), "xx");
}

#[test]
fn input_mode_default() {
    assert_eq!(InputMode::default(), InputMode::Continuous);
}

#[test]
fn editor_update() {
    let mut app = App::default();
    assert_eq!(app.title(), "Midi Expressor");
    let edited = ChannelConfig::default_with_index(9).with_input_mode(InputMode::Switch);
    app.update(Message::ChannelConfigChanged(2, edited));
    assert_eq!(app.device_config.channels[2].cc, 9);
    assert_eq!(app.device_config.channels[2].input.mode, InputMode::Switch);
    assert_eq!(app.device_config.channels[1].cc, 1);
    assert_eq!(app.device_config.channels[3].input.mode, InputMode::Continuous);
}

//! State of the configuration editor: the device configuration being edited and
//! the edits applied to it.
use vstd::prelude::*;
use crate::device_config::{default_input, ChannelConfig, DeviceConfig};

verus! {

/// Number of input channels of the device.
pub const NUM_CHANNELS: usize = 4;

/// An edit made in the editor.
#[derive(Debug, Clone, Copy)]
pub enum Message {
    /// The settings of the channel at this index were replaced.
    ChannelConfigChanged(usize, ChannelConfig),
}

/// The editor's state.
#[derive(Debug)]
pub struct App {
    pub device_config: DeviceConfig<4>,
}

impl Default for App {
    /// An editor over the default configuration of every channel.
    fn default() -> (r: Self)
        ensures
            forall|i: int|
                0 <= i < NUM_CHANNELS ==> (#[trigger] r.device_config.channels@[i]).input
                    == default_input() && r.device_config.channels@[i].cc == i,
    {
        App { device_config: DeviceConfig::default() }
    }
}

impl App {
    /// The editor's window title.
    pub fn title(&self) -> (r: String)
        ensures
            r@ == "Midi Expressor"@,
    {
        String::from_str("Midi Expressor")
    }

    /// Applies an edit: the edited channel's settings are replaced, every other
    /// channel keeps its own.
    pub fn update(&mut self, message: Message)
        requires
            message matches Message::ChannelConfigChanged(i, _) ==> i < NUM_CHANNELS,
        ensures
            ({
                let Message::ChannelConfigChanged(i, config) = message;
                final(self).device_config.channels@ == old(self).device_config.channels@.update(
                    i as int,
                    config,
                )
            }),
    {
        match message {
            Message::ChannelConfigChanged(channel, config) => {
                self.device_config.channels[channel] = config;
            },
        }
    }
}

} // verus!

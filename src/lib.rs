//! Control path of a MIDI expression controller: sampled inputs are clamped and
//! debounced per channel, mapped through each channel's configuration to Control
//! Change events, and MIDI channel-voice messages are encoded to and decoded from
//! DIN byte streams and USB-MIDI packets.
use vstd::prelude::*;

pub mod channel_strip;
pub mod message;
pub mod device_config;
pub mod mapper;
pub mod session;
pub mod editor;

verus! {

} // verus!

//! Verified core of a Kira audio plugin for Bevy: the plugin's error and
//! asset-format vocabulary, the rules by which it keeps track of playing
//! sounds, and a real-time level monitor that taps an audio stream and hands
//! fixed-size windows of recent frames to another thread.

pub mod err;
pub mod frame;
pub mod level_monitor;
pub mod plugins;
pub mod sound;

pub use err::KiraPluginError;
pub use frame::Frame;
pub use level_monitor::{
    LevelMonitor, LevelMonitorBuilder, LevelMonitorHandle, LevelSample, SampleError,
};
pub use plugins::events::{Attachment, KiraEventsPlugin, SoundOwner};
pub use sound::static_sounds::{
    KiraError, KiraStaticSoundAsset, KiraStaticSoundData, SoundAsset, StaticSoundFileLoader,
};

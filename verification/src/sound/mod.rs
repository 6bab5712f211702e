//! Playback of PCM data on a VirtIO sound device.

pub mod laws;
pub mod params;
pub mod playback;

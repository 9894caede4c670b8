//! Coordination core of an audio-reactive visualization host: the preset
//! playlist, the capture-session bridge, and the event coordinator that
//! turns window, keyboard and control-panel events into ordered actions on
//! the rendering engine and the two surfaces sharing its context.

pub mod audio;
pub mod coordinator;
pub mod playlist;

//! Playback and export core of an audio-reactive visualizer.
//!
//! The crate holds the decisions of a session: how a frame index and a
//! playback position relate, where chapters begin and end, how the playback
//! mode changes on each command and each tick, and how an export steps through
//! its frames. The shell around it owns the audio engine, the window and the
//! encoder process; it performs the commands this crate hands out and reports
//! back what it observed.

pub mod chapters;
pub mod main_state;
pub mod text;
pub mod time;

pub use chapters::{Chapter, Chapters};
pub use main_state::ui::Key;
pub use main_state::{
    Command, MainState, PlaybackState, RenderingSettings, Resolution, SoundState, VisualizerInfo,
};
pub use time::{Frames, Seconds};

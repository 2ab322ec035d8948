//! Core of a per-guild voice-session manager: an ordered playback queue, a
//! per-guild session with mute/deafen flags and a generation marker, a keyed
//! session registry, and the idle-timeout state machine that auto-pauses and
//! reclaims abandoned sessions.  Every state change is a verified function
//! from the old state to the new state plus the intents (connect, play,
//! pause, arm a timer, ...) that the unverified driver must carry out.

pub mod playlist;
pub mod queue;
pub mod registry;
pub mod resolve;
pub mod session;

pub use playlist::Item;
pub use playlist::Playlist;
pub use playlist::RessourceId;
pub use playlist::Snippet;

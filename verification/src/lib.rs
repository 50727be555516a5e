//! Core of a desktop music player: the play queue with its shuffle and
//! repeat rules, and the pure parts of audio playback (sample buffers,
//! PCM decoding, seek arithmetic, command lines for the helper tools).

pub mod models;
pub mod text;
pub mod queue;
mod shuffle;
pub mod queue_laws;
pub mod audio;
pub mod player;
pub mod queue_ops;

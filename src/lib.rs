//! Listening statistics for a music player: decides which stretches of playback count as a
//! listen, and shapes each listen into a record for storage.

pub mod client;
pub mod command;
pub mod clock;
pub mod interval;
pub mod listen;
pub mod play_record;
pub mod song;
mod text;

pub use client::MpdClient;
pub use command::Command;
pub use interval::TimeInterval;
pub use play_record::PlayRecord;

pub use listen::{CurrentListen, ListenIterator, SongListenRecord};
pub use song::{Song, SongStatus};

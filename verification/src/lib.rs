//! The playback state of a music player for one track at a time.
//!
//! The player keeps an ordered playlist whose head is the current track, and
//! accounts for playback time from readings of a monotonic clock instead of
//! asking the audio device. It owns no audio sink: every transition hands
//! back the commands that the owner of the sink carries out.
//!
//! Instants and lengths of time are whole nanoseconds in a `u64`.

pub mod clock;
pub mod laws;
pub mod model;
pub mod player;
pub mod playlist;
pub mod status;

pub use model::SinkCommand;
pub use player::{MediaError, MusicPlayer, Outcome};
pub use playlist::{PlayList, PlayListItem};
pub use status::PlayStatus;

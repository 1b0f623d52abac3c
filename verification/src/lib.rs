//! Decisions and message models of a live transcription worker that streams
//! audio to a speech recognition service over a websocket and turns the
//! transcripts it receives into EBU-TT Live subtitles.

pub mod authot;
pub mod decimal;
pub mod error;
pub mod parameters;
pub mod transcript;
pub mod stream;

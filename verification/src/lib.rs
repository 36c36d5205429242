//! The logic of a terminal music player's catalog search and download:
//! searching a remote video catalog page by page, downloading an entry as
//! tagged audio, and deciding what the screen shows.
//!
//! Nothing here reads, writes, waits or draws. The search session
//! (`catalog`) and the download job (`download`) hand back what is to be
//! asked or done and take in what came of it; `extract` recovers the audio
//! file's path from the download tool's log; `tagger` says what to do with
//! the file's tag; `table` lays the results out; `activity` ties these
//! together for the main screen; `model`, `frame` and `song` decide what is
//! mounted, what a frame draws and what the tag editor shows; `paths` names
//! what the standard library finds in a path.

pub mod activity;
pub mod catalog;
pub mod download;
pub mod extract;
pub mod frame;
pub mod model;
pub mod paths;
pub mod song;
pub mod table;
pub mod tagger;
pub mod text;

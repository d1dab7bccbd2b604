//! Decision logic of a small HTTP gateway that turns a media URL into a
//! downloadable attachment by delegating to the `yt-dlp` command-line
//! extractor.
//!
//! The crate performs no I/O. It decides what has to happen next for a
//! request, and the surrounding server carries those decisions out.

pub mod error;
pub mod config;
pub mod encoding;
pub mod extractor;
pub mod handler;
pub mod lifecycle;
pub mod response;
pub mod storage;
pub mod title;

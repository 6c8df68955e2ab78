//! Core of a media-download front end: it prepares the argument lists for an
//! external extractor process, parses the extractor's metadata documents and
//! progress lines, and tracks the event stream of one download session.
//!
//! Process spawning, stream plumbing and user-interface wiring live outside
//! this crate; everything here is pure logic over plain values.

pub mod args;
pub mod decode;
pub mod json;
pub mod metadata;
pub mod progress;
pub mod resolve;
pub mod session;
pub mod text;

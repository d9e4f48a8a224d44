//! A format-agnostic metadata-tag mutation core for audio files.
//!
//! The library decides which tag family a file extension routes to, infers a
//! cover image's MIME type from its extension, and applies a [`request::TagRequest`]
//! to a tag: non-empty text fields overwrite the stored value, empty fields
//! leave it untouched, and a cover image is attached as a front-cover picture.
//! The MP3 side mutates an `id3::Tag`, the Opus side a `lofty` tagged file;
//! reading and writing the files themselves is left to the caller.

pub mod apply;
pub mod dispatch;
pub mod mime;
pub mod mp3;
pub mod naming;
pub mod opus;
pub mod request;
pub mod text;

//! Core of a small desktop utility: upload an image to a GitHub repository
//! through its Contents API and produce a Markdown link, or compute a file's
//! MD5 digest and plan a sidecar file for it.
//!
//! Everything here is plain computation on strings and bytes; reading files,
//! sending the HTTP request and touching the clipboard are left to the shell
//! around the library.

pub mod digest;
pub mod digits;
pub mod encode;
pub mod filename;
pub mod image;
pub mod options;
pub mod settings;
pub mod upload;

//! The poster pipeline of the Kanime catalog, and the rules of the catalog
//! around it.
//!
//! From one uploaded poster the pipeline makes a full-resolution copy, a
//! thumbnail of fixed size, a placeholder string (a coarse preview of the
//! poster with its accent colour) and a presenter image that shows the
//! poster beside the title and the release data of its series.
//!
//! The library computes; it neither reads nor writes files. Codecs,
//! resampling, hashing, palette extraction and text drawing are the work of
//! outside crates, called behind contracts that state what is taken from
//! them on trust.

pub mod auth;
pub mod base83;
pub mod cache_key;
pub mod codec;
pub mod color;
pub mod config;
pub mod derivative;
pub mod placeholder;
pub mod presenter;
pub mod routes;
pub mod seo;
pub mod text;
pub mod types;

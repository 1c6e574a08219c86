//! Verified core of a binding over the libvlc media engine.
//!
//! The native engine is reached only by the program around this library. What
//! stands here is everything that is decided on this side of the boundary:
//! how strings are laid out for the native layer, how native handles are owned
//! and given back, how native status codes become typed results, and which
//! indices may be handed to the native lists. Every function takes what the
//! native layer answered as a plain value and states exactly what it makes of
//! it.

pub mod devices;
pub mod handle;
pub mod internal_error;
pub mod marshal;
pub mod media;
pub mod parse_flags;
pub mod player;
pub mod track;
pub mod vlc;

pub use internal_error::{VLCError, VLCResult};
pub use media::{Media, ParseStatus};
pub use parse_flags::ParseFlags;
pub use player::Player;
pub use track::{Track, TrackList};
pub use vlc::{VLCInstance, VLCInterface};

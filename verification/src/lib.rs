//! A pure-Rust Opus decoding library: the entropy decoder, channel mapping
//! tables, Ogg Opus header parsing and the SILK layer header decoding, each
//! with its contract proved by Verus.

pub mod ec;
pub mod slice_ext;
pub mod read;
mod seal;
pub mod channel;
pub mod packet;
pub mod silk;
pub mod error;
pub mod ogg;
pub mod sample;

pub use self::error::{Error, Result};

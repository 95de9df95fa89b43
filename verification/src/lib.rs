//! Extraction of camera metadata from the Exif tag container of an image.
//!
//! A buffer is decoded into an ordered sequence of tag entries
//! ([`container::decode`]), and the entries are projected onto a fixed record
//! of text fields ([`mapper::map_entries`]). [`Metadata::get_metadata`] does
//! both.

pub mod container;
pub mod coordinates;
pub mod laws;
pub mod mapper;
pub mod metadata;
pub mod tag;

pub use container::{decode, DecodeError};
pub use mapper::{count_unmapped, map_entries};
pub use metadata::Metadata;
pub use tag::{Rendering, Tag, TagContext, TagEntry, Target};

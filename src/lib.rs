//! Reads the on-disk statistics counters of a compiler cache and exposes them
//! as typed, queryable values: a registry of the 32 fields with their
//! metadata, a parser for one counter file, the merge of a cache directory's
//! root and shard files into one snapshot, and renderings of the result.
pub mod cache_field;
mod clock;
pub mod collection;
pub mod dir;
pub mod error;
pub mod leaf;
pub mod text;
pub mod value_format;

pub use cache_field::{
    field_data_order, field_display_order, CacheField, CacheFieldData, CacheFieldFormat,
    CacheFieldMeta, FIELD_COUNT,
};
pub use collection::CacheFieldCollection;
pub use dir::{CacheDir, LeafRead, SHARD_COUNT};
pub use error::ErrorKind;
pub use leaf::CacheLeaf;

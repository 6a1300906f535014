//! Directory walking results, search index and file operations.

pub mod explorer;
pub mod util;

pub use util::{fill_hashmap, search_hash_map};

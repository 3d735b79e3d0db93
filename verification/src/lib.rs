//! A read-only ext4 dissector: decodes the superblock, block group
//! descriptors, inodes, extent trees and directory blocks of an ext4 volume
//! from raw bytes, and renders what it finds as text.
//!
//! - `bytes`: little-endian integers and byte-run helpers.
//! - `types`: the on-disk records, decoded field by field.
//! - `ext4`: superblock, groups, inodes, extents and directory entries.
//! - `text`: numbers, padding and string building.
//! - `render`: the text shown for each structure and error.
//! - `laws`: properties that hold for every input.
pub mod bytes;
pub mod types;
pub mod text;
pub mod ext4;
pub mod render;
pub mod laws;

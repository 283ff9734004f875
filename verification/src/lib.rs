//! Decoder for the gimmick descriptor table held in a MEM8 memory image.
//!
//! The image is a byte-for-byte capture of console memory that begins at a
//! fixed virtual address. The table sits at a fixed virtual range inside it
//! and holds one sixteen-byte record per gimmick type. Each record points to
//! two zero-terminated strings elsewhere in the image.

pub mod bytes;
pub mod layout;
pub mod report;
pub mod table;
pub mod text;

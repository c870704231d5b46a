//! Saved blobs and the game database of a NES emulator.
//!
//! A saved blob is a nine-byte header followed by a raw DEFLATE stream; the
//! game database is such a blob.  Its entries are found by scanning cartridge
//! images, each identified by the CRC-32 of its ROM segments.
pub mod codec;
pub mod corrections;
pub mod crc32;
pub mod database;
pub mod error;
pub mod game;
pub mod header;
pub mod listing;
pub mod persist;
pub mod text;

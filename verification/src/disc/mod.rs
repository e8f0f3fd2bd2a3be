//! Disc images: containers, volume descriptors, filesystems and identifiers.

pub mod apm;
pub mod bincue;
pub mod browse;
pub mod btree;
pub mod chd;
pub mod cue;
pub mod detect;
pub mod formats;
pub mod hfs;
pub mod hfsplus;
pub mod identifier;
pub mod iso9660;
pub mod reader;
pub mod toc;

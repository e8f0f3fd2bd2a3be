//! Identification of optical-disc images and browsing of the filesystems they
//! carry, with every function's behaviour stated as a contract and proved.

pub mod api;
pub mod bytes;
pub mod config;
pub mod crypto;
pub mod disc;
pub mod export;
pub mod gui;
pub mod paths;
pub mod pattern;
pub mod search;
pub mod text;

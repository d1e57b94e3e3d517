//! Model of a bootloader's configuration: a lossless editor for its
//! key/value file, the catalogue of its boot entries, and the decisions of
//! the service that watches both.

pub mod config;
pub mod errors;
pub mod events;
pub mod grub2;
pub mod logging;
pub mod text;

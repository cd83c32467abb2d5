//! Core logic of a tray application that keeps the volume of every audio
//! session at the level stored in its configuration file.
#![allow(unused_imports)]

pub mod constants;
pub mod named_map;
pub mod configuration;
pub mod wrappers;
pub mod logging;
pub mod registry;
pub mod tray;
pub mod utils;

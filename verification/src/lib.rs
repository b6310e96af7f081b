//! A small media-center launcher library: it models the launcher's
//! configuration, resolves resource paths, plans the UI tiles, splits launch
//! commands, and formats the clock strings. The windowing shell around it
//! only performs I/O and hands plain values in and out.

pub mod clock;
pub mod colors;
pub mod config;
pub mod launch;
pub mod loader;
pub mod paths;
pub mod tiles;
pub mod toml_doc;

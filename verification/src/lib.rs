//! Verified core of a wallpaper blender: it scrapes wallpaper search pages,
//! decodes the pictures and folds them into one averaged picture, while a
//! terminal interface follows the worker threads through event channels.
pub mod channel;
pub mod cli;
pub mod collect;
pub mod text;
pub mod sync;
pub mod gui;
pub mod job;

pub use cli::CliArgs;

//! Daily-picture wallpaper synchronisation: the date codec, the local cache
//! lookup, the poll scheduler and the wallpaper sequencer, each with the
//! contract that states what it decides.

pub mod cache;
pub mod config;
pub mod date;
pub mod hyprpaper;
pub mod picture;
pub mod scheduler;
pub mod sequencer;
pub mod text;

//! Stateless download links, change-detecting monitors and the idle sweep
//! for a registry of managed torrents.

pub mod api;
pub mod clock;
pub mod monitor;
pub mod paths;
pub mod serve;
pub mod snapshot;
pub mod state;
pub mod sweep;
pub mod token;
pub mod torrent_file;

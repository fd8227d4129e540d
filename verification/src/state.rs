//! The activity states and error states a torrent reports.

use vstd::prelude::*;

verus! {

/// The activity a torrent is in, as the engine reports it.
#[derive(Clone, Copy, Debug, PartialEq, Eq, Structural)]
pub enum TorrentState {
    /// The torrent is downloading
    Downloading,
    /// The torrent is waiting to download
    DownloadingWait,
    /// The torrent is seeding
    Seeding,
    /// The torrent is waiting to seed
    SeedingWait,
    /// The torrent is stopped
    Stopped,
    /// The torrent is being checked
    Checking,
    /// The torrent is waiting to be checked
    CheckingWait,
    /// The torrent has errored
    Error,
}

impl TorrentState {
    /// Whether the torrent is actively distributing what it holds.
    pub open spec fn is_seeding(self) -> bool {
        self == TorrentState::Seeding
    }

    /// Tells whether the torrent is actively distributing what it holds.
    pub fn seeding(&self) -> (r: bool)
        ensures
            r == self.is_seeding(),
    {
        *self == TorrentState::Seeding
    }
}

} // verus!

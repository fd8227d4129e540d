//! The files of a torrent, and the download links handed out for them.

use crate::clock::{current_time, Timestamp};
use crate::token::{mint_at, minted_at, minted_path, text_is, unexpiring};
use vstd::prelude::*;

verus! {

/// The path under which download links are served.
pub const DOWNLOAD_PREFIX: &'static str = "/download/";

/// One file of a torrent.
#[derive(Debug)]
pub struct TorrentFile {
    /// The length of the file in bytes
    pub length: u64,
    /// Name of the file
    pub name: String,
    /// Download priority of the file
    pub dnd: i8,
    /// Was the file renamed?
    pub is_renamed: bool,
    pub first_piece: u32,
    pub last_piece: u32,
    pub offset: u64,
}

/// The path that `std::path::Path::join` makes of a directory and a name,
/// by the path rules of the platform the server is built for.
pub uninterp spec fn joined_path(directory: Seq<char>, name: Seq<char>) -> Seq<char>;

/// Appends a name to a directory with `std::path::Path::join`. The result
/// is named, not described.
#[verifier::external_body]
fn join_path(directory: &str, name: &str) -> (path: String)
    ensures
        path@ == joined_path(directory@, name@),
{
    std::path::Path::new(directory).join(name).to_string_lossy().into_owned()
}

impl TorrentFile {
    /// Where the file lies once it is downloaded to `download_dir`.
    pub fn path_in(&self, download_dir: &str) -> (path: String)
        ensures
            path@ == joined_path(download_dir@, self.name@),
    {
        join_path(download_dir, self.name.as_str())
    }

    /// The download link for this file as requested at `now`.
    ///
    /// `exists` says whether the file is on disk at
    /// [`path_in`](Self::path_in); a file that is not there gets no link.
    /// The link expires `expiry_secs` seconds after `now`, or never.
    pub fn download_link_at(
        &self,
        secret: &str,
        download_dir: &str,
        exists: bool,
        expiry_secs: Option<u64>,
        now: Timestamp,
    ) -> (r: Option<String>)
        ensures
            !exists ==> r is None,
            exists ==> text_is(
                r,
                minted_at(
                    secret@,
                    DOWNLOAD_PREFIX@,
                    joined_path(download_dir@, self.name@),
                    expiry_secs,
                    now,
                ),
            ),
    {
        if !exists {
            return None;
        }
        let path = self.path_in(download_dir);
        mint_at(secret, DOWNLOAD_PREFIX, path.as_str(), expiry_secs, now)
    }

    /// The download link for this file as requested now. The clock is read
    /// once; [`download_link_at`](Self::download_link_at) says what the
    /// link is for each reading, and the reading is one that the clock can
    /// show. A link that never expires does not depend on the reading.
    pub fn download_link(
        &self,
        secret: &str,
        download_dir: &str,
        exists: bool,
        expiry_secs: Option<u64>,
    ) -> (r: Option<String>)
        ensures
            !exists ==> r is None,
            exists && expiry_secs is None ==> text_is(
                r,
                minted_path(
                    secret@,
                    DOWNLOAD_PREFIX@,
                    unexpiring(joined_path(download_dir@, self.name@)),
                ),
            ),
            exists ==> exists|now: Timestamp|
                now.is_clock_reading() && #[trigger] text_is(
                    r,
                    minted_at(
                        secret@,
                        DOWNLOAD_PREFIX@,
                        joined_path(download_dir@, self.name@),
                        expiry_secs,
                        now,
                    ),
                ),
    {
        if !exists {
            return None;
        }
        let now = current_time();
        self.download_link_at(secret, download_dir, exists, expiry_secs, now)
    }
}

} // verus!

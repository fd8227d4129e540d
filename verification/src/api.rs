//! What the mutations and the subscription decide once the registry has
//! been asked for a torrent: the command for the engine, or the refusal.

use crate::monitor::{SessionView, StreamSession};
use vstd::prelude::*;

verus! {

/// Why a request was refused.
#[derive(Clone, Copy, Debug, PartialEq, Eq, Structural)]
pub enum ApiError {
    /// The registry holds no torrent under the ID that was given.
    ResourceNotFound,
}

/// A command for the engine, on the torrent that the registry gave.
#[derive(Clone, Copy, Debug, PartialEq, Eq, Structural)]
pub enum EngineCommand {
    /// Start or resume the torrent.
    Start,
    /// Stop the torrent.
    Stop,
    /// Take the torrent out of the engine, with what it has on disk where
    /// `with_data` is set.
    Remove { with_data: bool },
}

/// The reply to a mutation that was carried out.
pub const SUCCESS: &'static str = "success";

/// The words of an [`ApiError::ResourceNotFound`].
pub const NOT_FOUND_MESSAGE: &'static str = "Torrent not found";

impl ApiError {
    /// The words in which the error is reported.
    pub fn message(&self) -> (text: String)
        ensures
            text@ == NOT_FOUND_MESSAGE@,
    {
        NOT_FOUND_MESSAGE.to_owned()
    }
}

/// The command of a mutation on one torrent: `command` where the registry
/// holds the torrent, the refusal where it does not.
pub open spec fn commanded(found: bool, command: EngineCommand) -> Result<EngineCommand, ApiError> {
    if found {
        Ok(command)
    } else {
        Err(ApiError::ResourceNotFound)
    }
}

/// The mutations on the registry.
pub struct MutationRoot;

impl MutationRoot {
    /// Removes a torrent: where the registry held it, the engine is told
    /// to drop it together with its data on disk.
    pub fn remove(found: bool) -> (r: Result<EngineCommand, ApiError>)
        ensures
            r == commanded(found, (EngineCommand::Remove { with_data: true })),
    {
        if found {
            Ok(EngineCommand::Remove { with_data: true })
        } else {
            Err(ApiError::ResourceNotFound)
        }
    }

    /// Starts a torrent that the registry holds.
    pub fn start(found: bool) -> (r: Result<EngineCommand, ApiError>)
        ensures
            r == commanded(found, EngineCommand::Start),
    {
        if found {
            Ok(EngineCommand::Start)
        } else {
            Err(ApiError::ResourceNotFound)
        }
    }

    /// Stops a torrent that the registry holds.
    pub fn stop(found: bool) -> (r: Result<EngineCommand, ApiError>)
        ensures
            r == commanded(found, EngineCommand::Stop),
    {
        if found {
            Ok(EngineCommand::Stop)
        } else {
            Err(ApiError::ResourceNotFound)
        }
    }
}

/// The subscriptions on the registry.
pub struct SubscriptionRoot;

impl SubscriptionRoot {
    /// Opens a monitor on a torrent. A torrent that the registry does not
    /// hold when the subscription is made is refused at once.
    pub fn monitor_torrent(
        found: bool,
        torrent_id: i32,
        auto_stop: bool,
        refresh_duration_millis: u64,
    ) -> (r: Result<StreamSession, ApiError>)
        ensures
            match r {
                Ok(session) => found && session@ == SessionView::fresh(
                    torrent_id,
                    auto_stop,
                    refresh_duration_millis,
                ),
                Err(error) => !found && error == ApiError::ResourceNotFound,
            },
    {
        if found {
            Ok(StreamSession::new(torrent_id, auto_stop, refresh_duration_millis))
        } else {
            Err(ApiError::ResourceNotFound)
        }
    }
}

} // verus!

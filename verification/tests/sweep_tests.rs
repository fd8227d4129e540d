use torexpo::api::{ApiError, EngineCommand, MutationRoot, NOT_FOUND_MESSAGE, SUCCESS};
use torexpo::snapshot::{Fraction, Snapshot};
use torexpo::state::TorrentState;
use torexpo::sweep::{seed_buster, SWEEP_INTERVAL_MILLIS};

fn reading(id: i32, state: TorrentState, percent_done: f32) -> Snapshot {
    Snapshot { id, state, percent_done: Fraction::from_bits(percent_done.to_bits()) }
}

const ALL_STATES: [TorrentState; 8] = [
    TorrentState::Downloading,
    TorrentState::DownloadingWait,
    TorrentState::Seeding,
    TorrentState::SeedingWait,
    TorrentState::Stopped,
    TorrentState::Checking,
    TorrentState::CheckingWait,
    TorrentState::Error,
];

#[test]
fn sweep_runs_every_second() {
    assert_eq!(SWEEP_INTERVAL_MILLIS, 1000);
}

#[test]
fn empty_registry_stops_nothing() {
    assert_eq!(seed_buster(&vec![]), Vec::<i32>::new());
}

#[test]
fn complete_seeders_are_stopped_in_order() {
    let readings = vec![
        reading(5, TorrentState::Seeding, 1.0),
        reading(2, TorrentState::Downloading, 0.3),
        reading(9, TorrentState::Seeding, 0.99),
        reading(1, TorrentState::Seeding, 1.0),
        reading(4, TorrentState::Stopped, 1.0),
        reading(-3, TorrentState::Seeding, 1.5),
    ];
    assert_eq!(seed_buster(&readings), vec![5, 1, -3]);
}

#[test]
fn only_seeding_is_stopped() {
    for state in ALL_STATES {
        let targets = seed_buster(&vec![reading(1, state, 1.0)]);
        if state == TorrentState::Seeding {
            assert_eq!(targets, vec![1]);
        } else {
            assert_eq!(targets, Vec::<i32>::new());
        }
        assert_eq!(state.seeding(), state == TorrentState::Seeding);
    }
}

#[test]
fn incomplete_seeder_is_left_alone() {
    assert_eq!(seed_buster(&vec![reading(1, TorrentState::Seeding, 0.999)]), Vec::<i32>::new());
    assert_eq!(seed_buster(&vec![reading(1, TorrentState::Seeding, f32::NAN)]), Vec::<i32>::new());
}

#[test]
fn stopped_torrent_is_never_stopped_again() {
    let mut readings = vec![
        reading(1, TorrentState::Seeding, 1.0),
        reading(2, TorrentState::Seeding, 1.0),
        reading(3, TorrentState::Downloading, 0.5),
    ];
    assert_eq!(seed_buster(&readings), vec![1, 2]);
    // The commands took effect; the torrents stay in the registry.
    readings[0].state = TorrentState::Stopped;
    readings[1].state = TorrentState::Stopped;
    for _ in 0..5 {
        assert_eq!(seed_buster(&readings), Vec::<i32>::new());
    }
}

#[test]
fn failed_stop_is_tried_again_on_the_next_sweep() {
    let readings = vec![reading(1, TorrentState::Seeding, 1.0)];
    assert_eq!(seed_buster(&readings), vec![1]);
    assert_eq!(seed_buster(&readings), vec![1]);
}

#[test]
fn idle_seeder_is_complete_and_seeding() {
    assert!(reading(1, TorrentState::Seeding, 1.0).idle_seeder());
    assert!(!reading(1, TorrentState::Seeding, 0.5).idle_seeder());
    assert!(!reading(1, TorrentState::SeedingWait, 1.0).idle_seeder());
}

#[test]
fn mutations_command_the_engine_for_known_torrents() {
    assert_eq!(MutationRoot::start(true), Ok(EngineCommand::Start));
    assert_eq!(MutationRoot::stop(true), Ok(EngineCommand::Stop));
    assert_eq!(MutationRoot::remove(true), Ok(EngineCommand::Remove { with_data: true }));
    assert_eq!(SUCCESS, "success");
}

#[test]
fn mutations_refuse_unknown_torrents() {
    assert_eq!(MutationRoot::start(false), Err(ApiError::ResourceNotFound));
    assert_eq!(MutationRoot::stop(false), Err(ApiError::ResourceNotFound));
    assert_eq!(MutationRoot::remove(false), Err(ApiError::ResourceNotFound));
    assert_eq!(ApiError::ResourceNotFound.message(), "Torrent not found");
    assert_eq!(NOT_FOUND_MESSAGE, "Torrent not found");
}

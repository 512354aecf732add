use cda_copy::machine::Action;
use cda_copy::machine::CDACopy;
use cda_copy::machine::DriveStatus;
use cda_copy::machine::Event;
use cda_copy::machine::RunError;
use cda_copy::meta::MetadataSet;

fn collected() -> Event {
    Event::TagsCollected {
        title: String::from("A Title"),
        album: String::from("An Album"),
        artist: String::from("An Artist"),
        year: 2001,
    }
}

#[test]
fn single_disc_three_tracks() {
    let mut m = CDACopy::new(
        String::from("sr0"),
        String::from("out.mp3"),
        String::from("192k"),
        false,
        1,
        1700000000,
    );
    assert_eq!(m.current_action(), Action::OpenNamedDrive);
    m.on_event(Event::DriveOpened);
    assert_eq!(m.drive_name(), "sr0");

    assert_eq!(m.current_action(), Action::CollectMetadata);
    m.on_event(collected());

    assert_eq!(m.current_action(), Action::CreateWorkspace);
    assert_eq!(m.workspace(), ".tmp1700000000");
    m.on_event(Event::WorkspaceMade);

    assert_eq!(m.current_action(), Action::QueryDriveStatus);
    m.on_event(Event::StatusIs { status: DriveStatus::Open });
    assert_eq!(m.current_action(), Action::CloseTray);
    m.on_event(Event::TrayToggled);
    assert_eq!(m.current_action(), Action::MountDrive);
    m.on_event(Event::Mounted);

    assert_eq!(m.current_action(), Action::ListTracks);
    m.on_event(Event::ListingRead { raw: String::from("t1\nt2\nt3\n") });
    assert_eq!(m.tracks(), &vec!["t1", "t2", "t3"]);

    for i in 0..3usize {
        assert_eq!(m.current_action(), Action::CopyTrack { index: i });
        m.on_event(Event::TrackCopied);
    }

    assert_eq!(m.current_action(), Action::CombineDisc { disc: 0 });
    m.on_event(Event::Combined);
    assert_eq!(m.current_action(), Action::EjectTray);
    m.on_event(Event::TrayToggled);
    assert_eq!(m.current_action(), Action::RemoveRawTracks);
    m.on_event(Event::RawRemoved);

    // One disc only: no operator wait, straight to the whole-album combine.
    assert_eq!(m.current_action(), Action::CombineAlbum);
    m.on_event(Event::Combined);

    assert_eq!(m.current_action(), Action::TranscodeAlbum);
    assert_eq!(m.bitrate(), "192k");
    assert_eq!(m.output(), "out.mp3");
    m.on_event(Event::Transcoded);

    assert_eq!(m.current_action(), Action::WriteTags);
    match m.metadata() {
        Some(md) => {
            assert_eq!(md.title, "A Title");
            assert_eq!(md.album, "An Album");
            assert_eq!(md.artist, "An Artist");
            assert_eq!(md.year, 2001);
        },
        None => panic!("metadata should be held before tagging"),
    }
    m.on_event(Event::TagsWritten);

    assert_eq!(m.current_action(), Action::RemoveWorkspace);
    m.on_event(Event::WorkspaceRemoved);
    assert_eq!(m.current_action(), Action::Finish);
}

#[test]
fn second_disc_empty_listing_aborts() {
    let mut m = CDACopy::new(
        String::from("sr0"),
        String::from("out.mp3"),
        String::from("192k"),
        true,
        2,
        1700000001,
    );
    m.on_event(Event::DriveOpened);
    // Tagging skipped: no metadata collection before the workspace.
    assert_eq!(m.current_action(), Action::CreateWorkspace);
    m.on_event(Event::WorkspaceMade);

    m.on_event(Event::StatusIs { status: DriveStatus::Closed });
    assert_eq!(m.current_action(), Action::MountDrive);
    m.on_event(Event::Mounted);
    m.on_event(Event::ListingRead { raw: String::from("a\nb\n") });
    assert_eq!(m.current_action(), Action::CopyTrack { index: 0 });
    m.on_event(Event::TrackCopied);
    m.on_event(Event::TrackCopied);
    assert_eq!(m.current_action(), Action::CombineDisc { disc: 0 });
    m.on_event(Event::Combined);
    m.on_event(Event::TrayToggled);
    assert_eq!(m.current_action(), Action::RemoveRawTracks);
    m.on_event(Event::RawRemoved);

    // A second disc remains: the machine blocks on the operator.
    assert_eq!(m.current_action(), Action::AwaitOperator);
    m.on_event(Event::OperatorReady);

    m.on_event(Event::StatusIs { status: DriveStatus::NoDisc });
    m.on_event(Event::Mounted);
    assert_eq!(m.current_action(), Action::ListTracks);
    m.on_event(Event::ListingRead { raw: String::new() });

    // Disc 1's listing is empty: the run ends here, before intermediate 1
    // or the final combine, and stays ended whatever else is reported.
    assert_eq!(m.current_action(), Action::Abort { error: RunError::EmptyDiscFailure });
    m.on_event(Event::Combined);
    m.on_event(Event::Transcoded);
    assert_eq!(m.current_action(), Action::Abort { error: RunError::EmptyDiscFailure });
}

#[test]
fn copy_failure_is_fail_fast() {
    let mut m = CDACopy::new(
        String::from("sr0"),
        String::from("out.mp3"),
        String::from("64k"),
        true,
        1,
        1,
    );
    m.on_event(Event::DriveOpened);
    m.on_event(Event::WorkspaceMade);
    m.on_event(Event::StatusIs { status: DriveStatus::Closed });
    m.on_event(Event::Mounted);
    m.on_event(Event::ListingRead { raw: String::from("t1\nt2\nt3\n") });
    m.on_event(Event::TrackCopied);
    assert_eq!(m.current_action(), Action::CopyTrack { index: 1 });
    m.on_event(Event::TrackCopyFailed);
    // Track 1 failed: the run is over; no combine was ever requested.
    assert_eq!(m.current_action(), Action::Abort { error: RunError::CopyFailure });
    m.on_event(Event::TrackCopied);
    assert_eq!(m.current_action(), Action::Abort { error: RunError::CopyFailure });
}

#[test]
fn drive_fallback_resolution() {
    let mut m = CDACopy::new(
        String::from("sr9"),
        String::from("out.mp3"),
        String::from("192k"),
        true,
        1,
        2,
    );
    m.on_event(Event::DriveOpenFailed);
    assert_eq!(m.current_action(), Action::ProbeForDrive);
    m.on_event(Event::ProbeFound { name: String::from("sr1") });
    assert_eq!(m.drive_name(), "sr1");
    assert_eq!(m.current_action(), Action::CreateWorkspace);
}

#[test]
fn drive_resolution_failure_aborts() {
    let mut m = CDACopy::new(
        String::from("sr9"),
        String::from("out.mp3"),
        String::from("192k"),
        true,
        1,
        3,
    );
    m.on_event(Event::DriveOpenFailed);
    m.on_event(Event::ProbeFailed);
    assert_eq!(
        m.current_action(),
        Action::Abort { error: RunError::DriveResolutionFailure }
    );
}

#[test]
fn invalid_year_reprompts() {
    let mut m = CDACopy::new(
        String::from("sr0"),
        String::from("out.mp3"),
        String::from("192k"),
        false,
        1,
        4,
    );
    m.on_event(Event::DriveOpened);
    assert_eq!(m.current_action(), Action::CollectMetadata);
    m.on_event(Event::TagsCollected {
        title: String::from("t"),
        album: String::from("a"),
        artist: String::from("r"),
        year: 99,
    });
    // A two-digit year is rejected: the collector is asked again.
    assert_eq!(m.current_action(), Action::CollectMetadata);
    assert!(m.metadata().is_none());
    m.on_event(Event::TagsCollected {
        title: String::from("t"),
        album: String::from("a"),
        artist: String::from("r"),
        year: 1999,
    });
    assert_eq!(m.current_action(), Action::CreateWorkspace);
}

#[test]
fn metadata_record_validation() {
    assert!(MetadataSet::new(String::from("t"), String::from("a"), String::from("r"), 999)
        .is_none());
    assert!(MetadataSet::new(String::from("t"), String::from("a"), String::from("r"), 10000)
        .is_none());
    assert!(MetadataSet::new(String::from("t"), String::from("a"), String::from("r"), -2001)
        .is_none());
    let md = MetadataSet::new(String::from("t"), String::from("a"), String::from("r"), 1000);
    match md {
        Some(md) => assert_eq!(md.year, 1000),
        None => panic!("a four-digit year must be accepted"),
    }
}

#[test]
fn workspace_failure_aborts() {
    let mut m = CDACopy::new(
        String::from("sr0"),
        String::from("o.mp3"),
        String::from("192k"),
        true,
        1,
        5,
    );
    m.on_event(Event::DriveOpened);
    m.on_event(Event::WorkspaceFailed);
    assert_eq!(m.current_action(), Action::Abort { error: RunError::WorkspaceFailure });
}

#[test]
fn teardown_failure_still_finishes() {
    let mut m = CDACopy::new(
        String::from("sr0"),
        String::from("o.mp3"),
        String::from("192k"),
        true,
        1,
        6,
    );
    m.on_event(Event::DriveOpened);
    m.on_event(Event::WorkspaceMade);
    m.on_event(Event::StatusIs { status: DriveStatus::Closed });
    m.on_event(Event::Mounted);
    m.on_event(Event::ListingRead { raw: String::from("x\n") });
    m.on_event(Event::TrackCopied);
    m.on_event(Event::Combined);
    m.on_event(Event::TrayToggled);
    m.on_event(Event::RawRemoved);
    m.on_event(Event::Combined);
    m.on_event(Event::Transcoded);
    assert_eq!(m.current_action(), Action::RemoveWorkspace);
    // Workspace removal failing is reported but non-fatal.
    m.on_event(Event::WorkspaceRemoveFailed);
    assert_eq!(m.current_action(), Action::Finish);
}

fn up_to_first_combine(stamp: u64) -> CDACopy {
    let mut m = CDACopy::new(
        String::from("sr0"),
        String::from("o.mp3"),
        String::from("192k"),
        true,
        1,
        stamp,
    );
    m.on_event(Event::DriveOpened);
    m.on_event(Event::WorkspaceMade);
    m.on_event(Event::StatusIs { status: DriveStatus::Closed });
    m.on_event(Event::Mounted);
    m.on_event(Event::ListingRead { raw: String::from("x\n") });
    m.on_event(Event::TrackCopied);
    assert_eq!(m.current_action(), Action::CombineDisc { disc: 0 });
    m
}

#[test]
fn combine_failure_aborts() {
    let mut m = up_to_first_combine(8);
    m.on_event(Event::CombineFailed);
    assert_eq!(m.current_action(), Action::Abort { error: RunError::CombineFailure });
}

#[test]
fn eject_failure_aborts() {
    let mut m = up_to_first_combine(9);
    m.on_event(Event::Combined);
    assert_eq!(m.current_action(), Action::EjectTray);
    m.on_event(Event::ToggleFailed);
    assert_eq!(m.current_action(), Action::Abort { error: RunError::EjectFailure });
}

#[test]
fn cleanup_failure_aborts() {
    let mut m = up_to_first_combine(10);
    m.on_event(Event::Combined);
    m.on_event(Event::TrayToggled);
    assert_eq!(m.current_action(), Action::RemoveRawTracks);
    m.on_event(Event::RawRemoveFailed);
    assert_eq!(m.current_action(), Action::Abort { error: RunError::CleanupFailure });
}

#[test]
fn tag_write_failure_aborts() {
    let mut m = CDACopy::new(
        String::from("sr0"),
        String::from("o.mp3"),
        String::from("192k"),
        false,
        1,
        11,
    );
    m.on_event(Event::DriveOpened);
    m.on_event(collected());
    m.on_event(Event::WorkspaceMade);
    m.on_event(Event::StatusIs { status: DriveStatus::Closed });
    m.on_event(Event::Mounted);
    m.on_event(Event::ListingRead { raw: String::from("x\n") });
    m.on_event(Event::TrackCopied);
    m.on_event(Event::Combined);
    m.on_event(Event::TrayToggled);
    m.on_event(Event::RawRemoved);
    m.on_event(Event::Combined);
    m.on_event(Event::Transcoded);
    assert_eq!(m.current_action(), Action::WriteTags);
    m.on_event(Event::TagsWriteFailed);
    // The transcoded output already exists; only the tagging is lost.
    assert_eq!(m.current_action(), Action::Abort { error: RunError::TagWriteFailure });
}

#[test]
fn other_failures_abort() {
    let cases: Vec<(Event, RunError)> = vec![
        (Event::StatusFailed, RunError::MountFailure),
        (Event::MountFailed, RunError::MountFailure),
        (Event::ListingFailed, RunError::EnumerationFailure),
        (Event::TranscodeFailed, RunError::TranscodeFailure),
    ];
    for (event, expected) in cases {
        let mut m = CDACopy::new(
            String::from("sr0"),
            String::from("o.mp3"),
            String::from("192k"),
            true,
            1,
            7,
        );
        m.on_event(Event::DriveOpened);
        m.on_event(Event::WorkspaceMade);
        loop {
            match m.current_action() {
                Action::QueryDriveStatus => {
                    if matches!(event, Event::StatusFailed) {
                        break;
                    }
                    m.on_event(Event::StatusIs { status: DriveStatus::Closed });
                },
                Action::MountDrive => {
                    if matches!(event, Event::MountFailed) {
                        break;
                    }
                    m.on_event(Event::Mounted);
                },
                Action::ListTracks => {
                    if matches!(event, Event::ListingFailed) {
                        break;
                    }
                    m.on_event(Event::ListingRead { raw: String::from("x\n") });
                },
                Action::CopyTrack { .. } => m.on_event(Event::TrackCopied),
                Action::CombineDisc { .. } => m.on_event(Event::Combined),
                Action::EjectTray => m.on_event(Event::TrayToggled),
                Action::RemoveRawTracks => m.on_event(Event::RawRemoved),
                Action::CombineAlbum => m.on_event(Event::Combined),
                Action::TranscodeAlbum => {
                    assert!(matches!(event, Event::TranscodeFailed));
                    break;
                },
                other => panic!("unexpected action {:?}", other),
            }
        }
        m.on_event(event);
        assert_eq!(m.current_action(), Action::Abort { error: expected });
    }
}

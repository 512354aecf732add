//! The multi-disc orchestrator, written as an explicit state machine.
//!
//! The machine owns every decision of the pipeline: drive resolution and its
//! discovery fallback, tray handling before mount, per-track copying, the
//! per-disc combine, eject and cleanup, the operator wait between discs, the
//! whole-album combine, transcode, tagging and workspace teardown.  The
//! caller performs the device, file and console work: it asks for the
//! current [`Action`], carries it out, and reports the outcome back as an
//! [`Event`].  The transition relation is the spec function [`spec_step`];
//! the executable step is proved to follow it exactly.
use vstd::prelude::*;

use crate::listing;
use crate::meta;
use crate::meta::MetaModel;
use crate::meta::MetadataSet;
use crate::names;

verus! {

/// The tray state of the optical drive, as the device layer reports it.
#[derive(Clone, Copy, PartialEq, Eq, Structural, Debug)]
pub enum DriveStatus {
    Closed,
    Open,
    NoDisc,
    Unknown,
}

/// Every way a run can fail.  Each failure is fatal: the run ends at once.
#[derive(Clone, Copy, PartialEq, Eq, Structural, Debug)]
pub enum RunError {
    /// No drive opens, neither the requested one nor any discovered one.
    DriveResolutionFailure,
    /// A drive status query or a mount request failed.
    MountFailure,
    /// A tray toggle failed.
    EjectFailure,
    /// The track listing could not be retrieved or decoded.
    EnumerationFailure,
    /// The listing succeeded but the disc holds no tracks.
    EmptyDiscFailure,
    /// A track's read or write failed mid-copy.
    CopyFailure,
    /// A per-disc or whole-album concatenation failed.
    CombineFailure,
    /// The external encoder failed.
    TranscodeFailure,
    /// The metadata write failed (the transcoded output already exists).
    TagWriteFailure,
    /// The workspace directory could not be created.
    WorkspaceFailure,
    /// A disc's raw track files could not be deleted mid-run.
    CleanupFailure,
}

/// Where the machine stands.
#[derive(Clone, Copy, PartialEq, Eq, Structural, Debug)]
pub enum Phase {
    /// Opening the requested drive.
    ResolveDrive,
    /// The requested drive failed: probing the discovered drives.
    ProbeFallback,
    /// Asking the operator for the metadata record.
    CollectMeta,
    /// Creating the workspace directory.
    MakeWorkspace,
    /// Per-disc: querying the tray state.
    CheckStatus,
    /// Per-disc: the tray was open and is being closed first.
    CloseTrayFirst,
    /// Per-disc: mounting the disc at the drive's content address.
    MountDisc,
    /// Per-disc: listing the tracks on the mounted disc.
    ListDisc,
    /// Per-disc: copying the enumerated tracks one at a time.
    CopyTracks,
    /// Per-disc: combining the copied tracks into this disc's intermediate.
    AssembleDisc,
    /// Per-disc: ejecting the tray after the combine.
    EjectDisc,
    /// Per-disc: deleting this disc's raw track files.
    CleanRaw,
    /// Blocked on the operator inserting the next disc.
    AwaitOperator,
    /// Combining the per-disc intermediates into the whole-album stream.
    AssembleAlbum,
    /// Transcoding the whole-album stream to the compressed output.
    Encode,
    /// Writing the metadata record onto the output.
    TagOutput,
    /// Removing the workspace directory.
    Teardown,
    /// Terminal: the run succeeded.
    Finished,
    /// Terminal: the run failed.
    Aborted,
}

/// What the caller must do next, as a function of the machine's state.
#[derive(Clone, Copy, PartialEq, Eq, Structural, Debug)]
pub enum Action {
    /// Open the requested drive by name.
    OpenNamedDrive,
    /// Scan the discoverable drives and open the first that opens.
    ProbeForDrive,
    /// Prompt the operator for title, album, artist and year.
    CollectMetadata,
    /// Create the workspace directory.
    CreateWorkspace,
    /// Query the drive's tray state.
    QueryDriveStatus,
    /// Close the open tray.
    CloseTray,
    /// Mount the drive's content address.
    MountDrive,
    /// List the tracks of the mounted disc.
    ListTracks,
    /// Copy the track at `index` of the current track list.
    CopyTrack { index: usize },
    /// Combine the copied tracks into the intermediate of disc `disc`.
    CombineDisc { disc: u16 },
    /// Eject the tray.
    EjectTray,
    /// Delete the current disc's raw track files from the workspace.
    RemoveRawTracks,
    /// Wait for the operator to acknowledge the next disc.
    AwaitOperator,
    /// Combine all per-disc intermediates into the whole-album stream.
    CombineAlbum,
    /// Transcode the whole-album stream into the final output.
    TranscodeAlbum,
    /// Write the collected metadata onto the final output.
    WriteTags,
    /// Remove the workspace directory.
    RemoveWorkspace,
    /// Terminal: the run succeeded; nothing is left to do.
    Finish,
    /// Terminal: the run failed with `error`; nothing is left to do.
    Abort { error: RunError },
}

/// The outcome of an action, reported back by the caller.
pub enum Event {
    /// The requested drive opened.
    DriveOpened,
    /// The requested drive did not open.
    DriveOpenFailed,
    /// A discovered drive called `name` opened.
    ProbeFound { name: String },
    /// No discovered drive opened.
    ProbeFailed,
    /// The operator entered the metadata fields.
    TagsCollected { title: String, album: String, artist: String, year: i32 },
    /// The workspace directory was created.
    WorkspaceMade,
    /// The workspace directory could not be created.
    WorkspaceFailed,
    /// The drive reported its tray state.
    StatusIs { status: DriveStatus },
    /// The status query failed.
    StatusFailed,
    /// A tray toggle completed.
    TrayToggled,
    /// A tray toggle failed.
    ToggleFailed,
    /// The mount request succeeded.
    Mounted,
    /// The mount request failed.
    MountFailed,
    /// The listing was read; `raw` is the text, one entry per line.
    ListingRead { raw: String },
    /// The listing could not be read or decoded.
    ListingFailed,
    /// The current track was copied into the workspace.
    TrackCopied,
    /// The current track's read or write failed.
    TrackCopyFailed,
    /// A combine (per-disc or whole-album) succeeded.
    Combined,
    /// A combine failed.
    CombineFailed,
    /// The disc's raw track files were deleted.
    RawRemoved,
    /// The disc's raw track files could not be deleted.
    RawRemoveFailed,
    /// The operator acknowledged that the next disc is in.
    OperatorReady,
    /// The transcode succeeded.
    Transcoded,
    /// The transcode failed.
    TranscodeFailed,
    /// The metadata write succeeded.
    TagsWritten,
    /// The metadata write failed.
    TagsWriteFailed,
    /// The workspace directory was removed.
    WorkspaceRemoved,
    /// The workspace directory could not be removed (non-fatal).
    WorkspaceRemoveFailed,
}

/// The machine's mathematical state.  `listed` records each disc's
/// enumerated track list, `ripped` the track list behind each per-disc
/// intermediate produced so far, `raw` the raw track files currently in the
/// workspace; all three in order.
#[verifier::ext_equal]
pub ghost struct Model {
    pub output: Seq<char>,
    pub drive_req: Seq<char>,
    pub bitrate: Seq<char>,
    pub skip_tagging: bool,
    pub num_disks: u16,
    pub stamp: u64,
    pub ws: Seq<char>,
    pub drive: Seq<char>,
    pub phase: Phase,
    pub disc: u16,
    pub tracks: Seq<Seq<char>>,
    pub copied: int,
    pub meta: Option<MetaModel>,
    pub error: Option<RunError>,
    pub teardown_clean: bool,
    pub listed: Seq<Seq<Seq<char>>>,
    pub ripped: Seq<Seq<Seq<char>>>,
    pub raw: Seq<Seq<char>>,
}

/// The machine's state at the start of a run.
pub open spec fn init_model(
    drive: Seq<char>,
    output: Seq<char>,
    bitrate: Seq<char>,
    skip_tagging: bool,
    num_disks: u16,
    stamp: u64,
) -> Model {
    Model {
        output: output,
        drive_req: drive,
        bitrate: bitrate,
        skip_tagging: skip_tagging,
        num_disks: num_disks,
        stamp: stamp,
        ws: names::spec_workspace_name(stamp),
        drive: drive,
        phase: Phase::ResolveDrive,
        disc: 0,
        tracks: Seq::empty(),
        copied: 0,
        meta: None,
        error: None,
        teardown_clean: false,
        listed: Seq::empty(),
        ripped: Seq::empty(),
        raw: Seq::empty(),
    }
}

/// The state after a fatal failure.
pub open spec fn aborted(m: Model, error: RunError) -> Model {
    Model { phase: Phase::Aborted, error: Some(error), ..m }
}

/// Where drive resolution hands over to: metadata collection, unless it is
/// skipped, in which case straight to workspace creation.
pub open spec fn after_resolve(m: Model) -> Phase {
    if m.skip_tagging {
        Phase::MakeWorkspace
    } else {
        Phase::CollectMeta
    }
}

/// The transition relation.  An event that does not answer the current
/// phase leaves the state unchanged.
pub open spec fn spec_step(m: Model, event: Event) -> Model {
    match m.phase {
        Phase::ResolveDrive => match event {
            Event::DriveOpened => Model {
                drive: m.drive_req,
                phase: after_resolve(m),
                ..m
            },
            Event::DriveOpenFailed => Model { phase: Phase::ProbeFallback, ..m },
            _ => m,
        },
        Phase::ProbeFallback => match event {
            Event::ProbeFound { name } => Model { drive: name@, phase: after_resolve(m), ..m },
            Event::ProbeFailed => aborted(m, RunError::DriveResolutionFailure),
            _ => m,
        },
        Phase::CollectMeta => match event {
            Event::TagsCollected { title, album, artist, year } => if meta::year_is_valid(year) {
                Model {
                    meta: Some(
                        MetaModel { title: title@, album: album@, artist: artist@, year: year },
                    ),
                    phase: Phase::MakeWorkspace,
                    ..m
                }
            } else {
                m
            },
            _ => m,
        },
        Phase::MakeWorkspace => match event {
            Event::WorkspaceMade => Model {
                phase: if m.num_disks == 0 {
                    Phase::AssembleAlbum
                } else {
                    Phase::CheckStatus
                },
                ..m
            },
            Event::WorkspaceFailed => aborted(m, RunError::WorkspaceFailure),
            _ => m,
        },
        Phase::CheckStatus => match event {
            Event::StatusIs { status } => Model {
                phase: if status == DriveStatus::Open {
                    Phase::CloseTrayFirst
                } else {
                    Phase::MountDisc
                },
                ..m
            },
            Event::StatusFailed => aborted(m, RunError::MountFailure),
            _ => m,
        },
        Phase::CloseTrayFirst => match event {
            Event::TrayToggled => Model { phase: Phase::MountDisc, ..m },
            Event::ToggleFailed => aborted(m, RunError::EjectFailure),
            _ => m,
        },
        Phase::MountDisc => match event {
            Event::Mounted => Model { phase: Phase::ListDisc, ..m },
            Event::MountFailed => aborted(m, RunError::MountFailure),
            _ => m,
        },
        Phase::ListDisc => match event {
            Event::ListingRead { raw } => if raw@.len() == 0 {
                aborted(m, RunError::EmptyDiscFailure)
            } else {
                Model {
                    tracks: listing::spec_lines(raw@),
                    copied: 0,
                    listed: m.listed.push(listing::spec_lines(raw@)),
                    phase: Phase::CopyTracks,
                    ..m
                }
            },
            Event::ListingFailed => aborted(m, RunError::EnumerationFailure),
            _ => m,
        },
        Phase::CopyTracks => match event {
            Event::TrackCopied => if m.copied < m.tracks.len() {
                Model {
                    raw: m.raw.push(m.tracks[m.copied]),
                    copied: m.copied + 1,
                    phase: if m.copied + 1 == m.tracks.len() {
                        Phase::AssembleDisc
                    } else {
                        Phase::CopyTracks
                    },
                    ..m
                }
            } else {
                m
            },
            Event::TrackCopyFailed => aborted(m, RunError::CopyFailure),
            _ => m,
        },
        Phase::AssembleDisc => match event {
            Event::Combined => Model { ripped: m.ripped.push(m.tracks), phase: Phase::EjectDisc, ..m },
            Event::CombineFailed => aborted(m, RunError::CombineFailure),
            _ => m,
        },
        Phase::EjectDisc => match event {
            Event::TrayToggled => Model { phase: Phase::CleanRaw, ..m },
            Event::ToggleFailed => aborted(m, RunError::EjectFailure),
            _ => m,
        },
        Phase::CleanRaw => match event {
            Event::RawRemoved => Model {
                raw: Seq::empty(),
                tracks: Seq::empty(),
                copied: 0,
                disc: (m.disc + 1) as u16,
                phase: if m.disc + 1 < m.num_disks {
                    Phase::AwaitOperator
                } else {
                    Phase::AssembleAlbum
                },
                ..m
            },
            Event::RawRemoveFailed => aborted(m, RunError::CleanupFailure),
            _ => m,
        },
        Phase::AwaitOperator => match event {
            Event::OperatorReady => Model { phase: Phase::CheckStatus, ..m },
            _ => m,
        },
        Phase::AssembleAlbum => match event {
            Event::Combined => Model { phase: Phase::Encode, ..m },
            Event::CombineFailed => aborted(m, RunError::CombineFailure),
            _ => m,
        },
        Phase::Encode => match event {
            Event::Transcoded => Model {
                phase: if m.skip_tagging {
                    Phase::Teardown
                } else {
                    Phase::TagOutput
                },
                ..m
            },
            Event::TranscodeFailed => aborted(m, RunError::TranscodeFailure),
            _ => m,
        },
        Phase::TagOutput => match event {
            Event::TagsWritten => Model { phase: Phase::Teardown, ..m },
            Event::TagsWriteFailed => aborted(m, RunError::TagWriteFailure),
            _ => m,
        },
        Phase::Teardown => match event {
            Event::WorkspaceRemoved => Model { phase: Phase::Finished, teardown_clean: true, ..m },
            Event::WorkspaceRemoveFailed => Model {
                phase: Phase::Finished,
                teardown_clean: false,
                ..m
            },
            _ => m,
        },
        Phase::Finished => m,
        Phase::Aborted => m,
    }
}

/// The action owed in state `m`.
pub open spec fn action_of(m: Model) -> Action {
    match m.phase {
        Phase::ResolveDrive => Action::OpenNamedDrive,
        Phase::ProbeFallback => Action::ProbeForDrive,
        Phase::CollectMeta => Action::CollectMetadata,
        Phase::MakeWorkspace => Action::CreateWorkspace,
        Phase::CheckStatus => Action::QueryDriveStatus,
        Phase::CloseTrayFirst => Action::CloseTray,
        Phase::MountDisc => Action::MountDrive,
        Phase::ListDisc => Action::ListTracks,
        Phase::CopyTracks => Action::CopyTrack { index: m.copied as usize },
        Phase::AssembleDisc => Action::CombineDisc { disc: m.disc },
        Phase::EjectDisc => Action::EjectTray,
        Phase::CleanRaw => Action::RemoveRawTracks,
        Phase::AwaitOperator => Action::AwaitOperator,
        Phase::AssembleAlbum => Action::CombineAlbum,
        Phase::Encode => Action::TranscodeAlbum,
        Phase::TagOutput => Action::WriteTags,
        Phase::Teardown => Action::RemoveWorkspace,
        Phase::Finished => Action::Finish,
        Phase::Aborted => match m.error {
            Some(e) => Action::Abort { error: e },
            None => Action::Abort { error: RunError::DriveResolutionFailure },
        },
    }
}

/// Once metadata collection is behind the machine, a record is held unless
/// tagging is skipped.
pub open spec fn meta_ok(m: Model) -> bool {
    !m.skip_tagging ==> m.meta is Some
}

/// The machine's well-formedness invariant.  Constructors establish it and
/// every step preserves it.
pub open spec fn inv(m: Model) -> bool {
    &&& m.ws == names::spec_workspace_name(m.stamp)
    &&& 0 <= m.copied <= m.tracks.len()
    &&& m.disc <= m.num_disks
    &&& m.ripped.len() <= m.listed.len()
    &&& m.ripped == m.listed.take(m.ripped.len() as int)
    &&& (m.skip_tagging ==> m.phase != Phase::CollectMeta && m.phase != Phase::TagOutput
        && m.meta is None)
    &&& (m.meta matches Some(md) ==> meta::year_is_valid(md.year))
    &&& match m.phase {
        Phase::ResolveDrive | Phase::ProbeFallback | Phase::CollectMeta => m.disc == 0
            && m.listed.len() == 0 && m.ripped.len() == 0 && m.tracks.len() == 0 && m.raw.len()
            == 0 && m.error is None && m.meta is None,
        Phase::MakeWorkspace => m.disc == 0 && m.listed.len() == 0 && m.ripped.len() == 0
            && m.tracks.len() == 0 && m.raw.len() == 0 && m.error is None && meta_ok(m),
        Phase::CheckStatus | Phase::CloseTrayFirst | Phase::MountDisc | Phase::ListDisc => m.disc
            < m.num_disks && m.listed.len() == m.disc as int && m.ripped.len() == m.disc as int
            && m.tracks.len() == 0 && m.raw.len() == 0 && m.error is None && meta_ok(m),
        Phase::CopyTracks => m.disc < m.num_disks && m.listed.len() == m.disc + 1
            && m.listed[m.disc as int] == m.tracks && m.ripped.len() == m.disc as int
            && m.tracks.len() > 0 && m.copied < m.tracks.len() && m.raw == m.tracks.take(m.copied)
            && m.error is None && meta_ok(m),
        Phase::AssembleDisc => m.disc < m.num_disks && m.listed.len() == m.disc + 1
            && m.listed[m.disc as int] == m.tracks && m.ripped.len() == m.disc as int
            && m.tracks.len() > 0 && m.copied == m.tracks.len() && m.raw == m.tracks
            && m.error is None && meta_ok(m),
        Phase::EjectDisc | Phase::CleanRaw => m.disc < m.num_disks && m.listed.len() == m.disc + 1
            && m.listed[m.disc as int] == m.tracks && m.ripped.len() == m.disc + 1
            && m.ripped[m.disc as int] == m.tracks && m.tracks.len() > 0 && m.raw == m.tracks
            && m.error is None && meta_ok(m),
        Phase::AwaitOperator => 0 < m.disc < m.num_disks && m.listed.len() == m.disc as int
            && m.ripped.len() == m.disc as int && m.tracks.len() == 0 && m.raw.len() == 0
            && m.error is None && meta_ok(m),
        Phase::AssembleAlbum | Phase::Encode => m.disc == m.num_disks && m.listed.len()
            == m.num_disks as int && m.ripped.len() == m.num_disks as int && m.tracks.len() == 0
            && m.raw.len() == 0 && m.error is None && meta_ok(m),
        Phase::TagOutput => m.disc == m.num_disks && m.listed.len() == m.num_disks as int
            && m.ripped.len() == m.num_disks as int && m.tracks.len() == 0 && m.raw.len() == 0
            && m.error is None && m.meta is Some,
        Phase::Teardown | Phase::Finished => m.disc == m.num_disks && m.listed.len()
            == m.num_disks as int && m.ripped.len() == m.num_disks as int && m.tracks.len() == 0
            && m.raw.len() == 0 && m.error is None,
        Phase::Aborted => m.error is Some && match m.error {
            Some(RunError::CopyFailure) => m.listed.len() == m.disc + 1 && m.listed[m.disc as int]
                == m.tracks && m.ripped.len() == m.disc as int && m.copied < m.tracks.len()
                && m.raw == m.tracks.take(m.copied),
            Some(RunError::EmptyDiscFailure) => m.disc < m.num_disks && m.listed.len()
                == m.disc as int && m.ripped.len() == m.disc as int && m.tracks.len() == 0
                && m.raw.len() == 0,
            _ => true,
        },
    }
}

/// Every step preserves the invariant.
pub proof fn lemma_inv_step(m: Model, event: Event)
    requires
        inv(m),
    ensures
        inv(spec_step(m, event)),
{
    match m.phase {
        Phase::ListDisc => {
            if let Event::ListingRead { raw } = event {
                if raw@.len() > 0 {
                    listing::lemma_lines_nonempty(raw@);
                    let x = listing::spec_lines(raw@);
                    assert(m.listed.push(x).take(m.ripped.len() as int) =~= m.listed.take(
                        m.ripped.len() as int,
                    ));
                    assert(m.listed.push(x)[m.disc as int] == x);
                    assert(m.raw =~= x.take(0));
                }
            }
        },
        Phase::CopyTracks => {
            if let Event::TrackCopied = event {
                if m.copied < m.tracks.len() {
                    assert(m.raw.push(m.tracks[m.copied]) =~= m.tracks.take(m.copied + 1));
                    if m.copied + 1 == m.tracks.len() {
                        assert(m.tracks.take(m.copied + 1) =~= m.tracks);
                    }
                }
            }
        },
        Phase::AssembleDisc => {
            if let Event::Combined = event {
                assert(m.ripped.push(m.tracks) =~= m.listed.take(m.disc + 1));
            }
        },
        _ => {},
    }
}

/// The state after feeding `events` to the machine, one at a time.
pub open spec fn run(m: Model, events: Seq<Event>) -> Model
    decreases events.len(),
{
    if events.len() == 0 {
        m
    } else {
        run(spec_step(m, events[0]), events.skip(1))
    }
}

pub proof fn lemma_init_inv(
    drive: Seq<char>,
    output: Seq<char>,
    bitrate: Seq<char>,
    skip_tagging: bool,
    num_disks: u16,
    stamp: u64,
)
    ensures
        inv(init_model(drive, output, bitrate, skip_tagging, num_disks, stamp)),
{
    let m = init_model(drive, output, bitrate, skip_tagging, num_disks, stamp);
    assert(m.ripped =~= m.listed.take(0));
}

/// A whole run preserves the invariant.
pub proof fn lemma_run_inv(m: Model, events: Seq<Event>)
    requires
        inv(m),
    ensures
        inv(run(m, events)),
    decreases events.len(),
{
    if events.len() > 0 {
        lemma_inv_step(m, events[0]);
        lemma_run_inv(spec_step(m, events[0]), events.skip(1));
    }
}

/// No step changes the run's configuration: what the machine was set up
/// with holds through the whole run.
pub proof fn lemma_run_keeps_config(m: Model, events: Seq<Event>)
    ensures
        run(m, events).skip_tagging == m.skip_tagging,
        run(m, events).num_disks == m.num_disks,
        run(m, events).stamp == m.stamp,
        run(m, events).ws == m.ws,
        run(m, events).output == m.output,
        run(m, events).bitrate == m.bitrate,
        run(m, events).drive_req == m.drive_req,
    decreases events.len(),
{
    if events.len() > 0 {
        lemma_run_keeps_config(spec_step(m, events[0]), events.skip(1));
    }
}

/// A terminal state absorbs every further event: nothing more is ever done.
pub proof fn lemma_terminal_run(m: Model, events: Seq<Event>)
    requires
        m.phase == Phase::Finished || m.phase == Phase::Aborted,
    ensures
        run(m, events) == m,
    decreases events.len(),
{
    if events.len() > 0 {
        assert(spec_step(m, events[0]) == m);
        lemma_terminal_run(m, events.skip(1));
    }
}

/// The audio content of the final output, modelled as the ordered
/// concatenation of the track lists behind the per-disc intermediates.
pub open spec fn album_content(m: Model) -> Seq<Seq<char>> {
    m.ripped.flatten()
}

/// Ordering law: a run that reaches the whole-album combine has produced
/// exactly one intermediate per disc, intermediate `i` holding exactly the
/// tracks enumerated on disc `i` in enumeration order; the final output is
/// therefore the concatenation of disc 0's tracks through disc N-1's
/// tracks, with no reordering, duplication or omission.
pub proof fn lemma_album_ordering(
    drive: Seq<char>,
    output: Seq<char>,
    bitrate: Seq<char>,
    skip_tagging: bool,
    num_disks: u16,
    stamp: u64,
    events: Seq<Event>,
)
    ensures
        ({
            let m = run(init_model(drive, output, bitrate, skip_tagging, num_disks, stamp), events);
            (m.phase == Phase::AssembleAlbum || m.phase == Phase::Encode || m.phase
                == Phase::TagOutput || m.phase == Phase::Teardown || m.phase == Phase::Finished)
                ==> {
                &&& m.ripped.len() == m.num_disks as int
                &&& m.ripped == m.listed
                &&& album_content(m) == m.listed.flatten()
            }
        }),
{
    let m0 = init_model(drive, output, bitrate, skip_tagging, num_disks, stamp);
    lemma_init_inv(drive, output, bitrate, skip_tagging, num_disks, stamp);
    lemma_run_inv(m0, events);
    let m = run(m0, events);
    if m.ripped.len() == m.listed.len() {
        assert(m.listed.take(m.ripped.len() as int) =~= m.listed);
    }
}

/// A disc's combine is requested only once every track enumerated on that
/// disc has been copied into the workspace: when the per-disc combine is
/// owed, the workspace holds exactly the disc's track list, in enumeration
/// order, and no intermediate exists for it yet.
pub proof fn lemma_combine_only_after_full_copy(
    drive: Seq<char>,
    output: Seq<char>,
    bitrate: Seq<char>,
    skip_tagging: bool,
    num_disks: u16,
    stamp: u64,
    events: Seq<Event>,
)
    ensures
        ({
            let m = run(init_model(drive, output, bitrate, skip_tagging, num_disks, stamp), events);
            m.phase == Phase::AssembleDisc ==> {
                &&& action_of(m) == (Action::CombineDisc { disc: m.disc })
                &&& m.copied == m.tracks.len()
                &&& m.raw == m.tracks
                &&& m.tracks == m.listed[m.disc as int]
                &&& m.ripped.len() == m.disc as int
            }
        }),
{
    let m0 = init_model(drive, output, bitrate, skip_tagging, num_disks, stamp);
    lemma_init_inv(drive, output, bitrate, skip_tagging, num_disks, stamp);
    lemma_run_inv(m0, events);
}

/// Empty-disc termination: an empty listing ends the run at once.  No
/// intermediate exists for the empty disc or any later one, and no further
/// action — in particular neither the transcoder nor the tag writer — is
/// ever requested.
pub proof fn lemma_empty_disc_terminates(
    drive: Seq<char>,
    output: Seq<char>,
    bitrate: Seq<char>,
    skip_tagging: bool,
    num_disks: u16,
    stamp: u64,
    events: Seq<Event>,
    more: Seq<Event>,
)
    ensures
        ({
            let m = run(init_model(drive, output, bitrate, skip_tagging, num_disks, stamp), events);
            (m.phase == Phase::Aborted && m.error == Some(RunError::EmptyDiscFailure)) ==> {
                &&& m.ripped.len() == m.disc as int
                &&& m.disc < m.num_disks
                &&& run(m, more) == m
                &&& action_of(run(m, more)) == (Action::Abort {
                    error: RunError::EmptyDiscFailure,
                })
            }
        }),
{
    let m0 = init_model(drive, output, bitrate, skip_tagging, num_disks, stamp);
    lemma_init_inv(drive, output, bitrate, skip_tagging, num_disks, stamp);
    lemma_run_inv(m0, events);
    let m = run(m0, events);
    if m.phase == Phase::Aborted && m.error == Some(RunError::EmptyDiscFailure) {
        lemma_terminal_run(m, more);
    }
}

/// Fail-fast copy: when the copy of track `j` of the current disc fails,
/// exactly the tracks before `j` have been copied into the workspace, the
/// disc's combine has not been requested, and the run is over.
pub proof fn lemma_fail_fast_copy(
    drive: Seq<char>,
    output: Seq<char>,
    bitrate: Seq<char>,
    skip_tagging: bool,
    num_disks: u16,
    stamp: u64,
    events: Seq<Event>,
    more: Seq<Event>,
)
    ensures
        ({
            let m = run(init_model(drive, output, bitrate, skip_tagging, num_disks, stamp), events);
            (m.phase == Phase::Aborted && m.error == Some(RunError::CopyFailure)) ==> {
                &&& m.raw == m.tracks.take(m.copied)
                &&& m.copied < m.tracks.len()
                &&& m.listed.len() == m.disc + 1
                &&& m.tracks == m.listed[m.disc as int]
                &&& m.ripped.len() == m.disc as int
                &&& run(m, more) == m
            }
        }),
{
    let m0 = init_model(drive, output, bitrate, skip_tagging, num_disks, stamp);
    lemma_init_inv(drive, output, bitrate, skip_tagging, num_disks, stamp);
    lemma_run_inv(m0, events);
    let m = run(m0, events);
    if m.phase == Phase::Aborted && m.error == Some(RunError::CopyFailure) {
        lemma_terminal_run(m, more);
    }
}

/// Workspace hygiene: after each disc's combine-and-clean — on entering the
/// operator wait and from the whole-album combine on — no raw per-track
/// file remains in the workspace.
pub proof fn lemma_raw_files_cleaned(
    drive: Seq<char>,
    output: Seq<char>,
    bitrate: Seq<char>,
    skip_tagging: bool,
    num_disks: u16,
    stamp: u64,
    events: Seq<Event>,
)
    ensures
        ({
            let m = run(init_model(drive, output, bitrate, skip_tagging, num_disks, stamp), events);
            (m.phase == Phase::AwaitOperator || m.phase == Phase::AssembleAlbum || m.phase
                == Phase::Encode || m.phase == Phase::TagOutput || m.phase == Phase::Teardown
                || m.phase == Phase::Finished) ==> m.raw.len() == 0
        }),
{
    let m0 = init_model(drive, output, bitrate, skip_tagging, num_disks, stamp);
    lemma_init_inv(drive, output, bitrate, skip_tagging, num_disks, stamp);
    lemma_run_inv(m0, events);
}

/// Metadata skip: with tagging skipped, the metadata collector is never
/// invoked, no record is ever held, and the tag writer is never invoked.
pub proof fn lemma_metadata_skip(
    drive: Seq<char>,
    output: Seq<char>,
    bitrate: Seq<char>,
    skip_tagging: bool,
    num_disks: u16,
    stamp: u64,
    events: Seq<Event>,
)
    ensures
        ({
            let m = run(init_model(drive, output, bitrate, skip_tagging, num_disks, stamp), events);
            skip_tagging ==> {
                &&& action_of(m) != Action::CollectMetadata
                &&& action_of(m) != Action::WriteTags
                &&& m.meta is None
            }
        }),
{
    let m0 = init_model(drive, output, bitrate, skip_tagging, num_disks, stamp);
    lemma_init_inv(drive, output, bitrate, skip_tagging, num_disks, stamp);
    lemma_run_inv(m0, events);
    lemma_run_keeps_config(m0, events);
}

/// The orchestrator: the configuration of one run together with the
/// machine's current state.
pub struct CDACopy {
    output: String,
    drive_req: String,
    bitrate: String,
    skip_tagging: bool,
    num_disks: u16,
    stamp: u64,
    ws: String,
    drive: String,
    phase: Phase,
    disc: u16,
    tracks: Vec<String>,
    copied: usize,
    meta: Option<MetadataSet>,
    error: Option<RunError>,
    teardown_clean: bool,
    listed: Ghost<Seq<Seq<Seq<char>>>>,
    ripped: Ghost<Seq<Seq<Seq<char>>>>,
    raw: Ghost<Seq<Seq<char>>>,
}

impl View for CDACopy {
    type V = Model;

    closed spec fn view(&self) -> Model {
        Model {
            output: self.output@,
            drive_req: self.drive_req@,
            bitrate: self.bitrate@,
            skip_tagging: self.skip_tagging,
            num_disks: self.num_disks,
            stamp: self.stamp,
            ws: self.ws@,
            drive: self.drive@,
            phase: self.phase,
            disc: self.disc,
            tracks: self.tracks.deep_view(),
            copied: self.copied as int,
            meta: match self.meta {
                Some(md) => Some(md@),
                None => None,
            },
            error: self.error,
            teardown_clean: self.teardown_clean,
            listed: self.listed@,
            ripped: self.ripped@,
            raw: self.raw@,
        }
    }
}

impl CDACopy {
    /// Sets up a run: the requested drive, the output path, the bitrate,
    /// whether tagging is skipped, how many discs, and the start time in
    /// seconds since the epoch (which names the workspace).
    pub fn new(
        drive: String,
        output: String,
        bitrate: String,
        skip_tagging: bool,
        num_disks: u16,
        stamp: u64,
    ) -> (r: CDACopy)
        ensures
            r@ == init_model(drive@, output@, bitrate@, skip_tagging, num_disks, stamp),
            inv(r@),
    {
        let ws = names::workspace_name(stamp);
        let drive_name = drive.clone();
        let r = CDACopy {
            output: output,
            drive_req: drive,
            bitrate: bitrate,
            skip_tagging: skip_tagging,
            num_disks: num_disks,
            stamp: stamp,
            ws: ws,
            drive: drive_name,
            phase: Phase::ResolveDrive,
            disc: 0,
            tracks: Vec::new(),
            copied: 0,
            meta: None,
            error: None,
            teardown_clean: false,
            listed: Ghost(Seq::empty()),
            ripped: Ghost(Seq::empty()),
            raw: Ghost(Seq::empty()),
        };
        proof {
            assert(r@ =~~= init_model(drive@, output@, bitrate@, skip_tagging, num_disks, stamp));
            lemma_init_inv(drive@, output@, bitrate@, skip_tagging, num_disks, stamp);
        }
        r
    }

    /// The action the caller owes the machine in its current state.
    pub fn current_action(&self) -> (a: Action)
        ensures
            a == action_of(self@),
    {
        match self.phase {
            Phase::ResolveDrive => Action::OpenNamedDrive,
            Phase::ProbeFallback => Action::ProbeForDrive,
            Phase::CollectMeta => Action::CollectMetadata,
            Phase::MakeWorkspace => Action::CreateWorkspace,
            Phase::CheckStatus => Action::QueryDriveStatus,
            Phase::CloseTrayFirst => Action::CloseTray,
            Phase::MountDisc => Action::MountDrive,
            Phase::ListDisc => Action::ListTracks,
            Phase::CopyTracks => Action::CopyTrack { index: self.copied },
            Phase::AssembleDisc => Action::CombineDisc { disc: self.disc },
            Phase::EjectDisc => Action::EjectTray,
            Phase::CleanRaw => Action::RemoveRawTracks,
            Phase::AwaitOperator => Action::AwaitOperator,
            Phase::AssembleAlbum => Action::CombineAlbum,
            Phase::Encode => Action::TranscodeAlbum,
            Phase::TagOutput => Action::WriteTags,
            Phase::Teardown => Action::RemoveWorkspace,
            Phase::Finished => Action::Finish,
            Phase::Aborted => match self.error {
                Some(e) => Action::Abort { error: e },
                None => Action::Abort { error: RunError::DriveResolutionFailure },
            },
        }
    }

    /// Feeds the outcome of the current action back into the machine.  The
    /// step follows the transition relation `spec_step` exactly.
    pub fn on_event(&mut self, event: Event)
        requires
            inv(old(self)@),
        ensures
            final(self)@ == spec_step(old(self)@, event),
            inv(final(self)@),
    {
        let ghost e0 = event;
        match self.phase {
            Phase::ResolveDrive => match event {
                Event::DriveOpened => {
                    self.drive = self.drive_req.clone();
                    self.phase = if self.skip_tagging {
                        Phase::MakeWorkspace
                    } else {
                        Phase::CollectMeta
                    };
                },
                Event::DriveOpenFailed => {
                    self.phase = Phase::ProbeFallback;
                },
                _ => {},
            },
            Phase::ProbeFallback => match event {
                Event::ProbeFound { name } => {
                    self.drive = name;
                    self.phase = if self.skip_tagging {
                        Phase::MakeWorkspace
                    } else {
                        Phase::CollectMeta
                    };
                },
                Event::ProbeFailed => {
                    self.error = Some(RunError::DriveResolutionFailure);
                    self.phase = Phase::Aborted;
                },
                _ => {},
            },
            Phase::CollectMeta => match event {
                Event::TagsCollected { title, album, artist, year } => {
                    match MetadataSet::new(title, album, artist, year) {
                        Some(md) => {
                            self.meta = Some(md);
                            self.phase = Phase::MakeWorkspace;
                        },
                        None => {},
                    }
                },
                _ => {},
            },
            Phase::MakeWorkspace => match event {
                Event::WorkspaceMade => {
                    self.phase = if self.num_disks == 0 {
                        Phase::AssembleAlbum
                    } else {
                        Phase::CheckStatus
                    };
                },
                Event::WorkspaceFailed => {
                    self.error = Some(RunError::WorkspaceFailure);
                    self.phase = Phase::Aborted;
                },
                _ => {},
            },
            Phase::CheckStatus => match event {
                Event::StatusIs { status } => {
                    self.phase = if status == DriveStatus::Open {
                        Phase::CloseTrayFirst
                    } else {
                        Phase::MountDisc
                    };
                },
                Event::StatusFailed => {
                    self.error = Some(RunError::MountFailure);
                    self.phase = Phase::Aborted;
                },
                _ => {},
            },
            Phase::CloseTrayFirst => match event {
                Event::TrayToggled => {
                    self.phase = Phase::MountDisc;
                },
                Event::ToggleFailed => {
                    self.error = Some(RunError::EjectFailure);
                    self.phase = Phase::Aborted;
                },
                _ => {},
            },
            Phase::MountDisc => match event {
                Event::Mounted => {
                    self.phase = Phase::ListDisc;
                },
                Event::MountFailed => {
                    self.error = Some(RunError::MountFailure);
                    self.phase = Phase::Aborted;
                },
                _ => {},
            },
            Phase::ListDisc => match event {
                Event::ListingRead { raw } => {
                    if raw.as_str().unicode_len() == 0 {
                        self.error = Some(RunError::EmptyDiscFailure);
                        self.phase = Phase::Aborted;
                    } else {
                        let tracks = listing::parse_track_list(raw.as_str());
                        self.listed = Ghost(self.listed@.push(tracks.deep_view()));
                        self.tracks = tracks;
                        self.copied = 0;
                        self.phase = Phase::CopyTracks;
                    }
                },
                Event::ListingFailed => {
                    self.error = Some(RunError::EnumerationFailure);
                    self.phase = Phase::Aborted;
                },
                _ => {},
            },
            Phase::CopyTracks => match event {
                Event::TrackCopied => {
                    if self.copied < self.tracks.len() {
                        self.raw = Ghost(self.raw@.push(self.tracks.deep_view()[self.copied as int]));
                        self.copied = self.copied + 1;
                        if self.copied == self.tracks.len() {
                            self.phase = Phase::AssembleDisc;
                        }
                    }
                },
                Event::TrackCopyFailed => {
                    self.error = Some(RunError::CopyFailure);
                    self.phase = Phase::Aborted;
                },
                _ => {},
            },
            Phase::AssembleDisc => match event {
                Event::Combined => {
                    self.ripped = Ghost(self.ripped@.push(self.tracks.deep_view()));
                    self.phase = Phase::EjectDisc;
                },
                Event::CombineFailed => {
                    self.error = Some(RunError::CombineFailure);
                    self.phase = Phase::Aborted;
                },
                _ => {},
            },
            Phase::EjectDisc => match event {
                Event::TrayToggled => {
                    self.phase = Phase::CleanRaw;
                },
                Event::ToggleFailed => {
                    self.error = Some(RunError::EjectFailure);
                    self.phase = Phase::Aborted;
                },
                _ => {},
            },
            Phase::CleanRaw => match event {
                Event::RawRemoved => {
                    self.raw = Ghost(Seq::empty());
                    self.tracks = Vec::new();
                    self.copied = 0;
                    self.disc = self.disc + 1;
                    self.phase = if self.disc < self.num_disks {
                        Phase::AwaitOperator
                    } else {
                        Phase::AssembleAlbum
                    };
                },
                Event::RawRemoveFailed => {
                    self.error = Some(RunError::CleanupFailure);
                    self.phase = Phase::Aborted;
                },
                _ => {},
            },
            Phase::AwaitOperator => match event {
                Event::OperatorReady => {
                    self.phase = Phase::CheckStatus;
                },
                _ => {},
            },
            Phase::AssembleAlbum => match event {
                Event::Combined => {
                    self.phase = Phase::Encode;
                },
                Event::CombineFailed => {
                    self.error = Some(RunError::CombineFailure);
                    self.phase = Phase::Aborted;
                },
                _ => {},
            },
            Phase::Encode => match event {
                Event::Transcoded => {
                    self.phase = if self.skip_tagging {
                        Phase::Teardown
                    } else {
                        Phase::TagOutput
                    };
                },
                Event::TranscodeFailed => {
                    self.error = Some(RunError::TranscodeFailure);
                    self.phase = Phase::Aborted;
                },
                _ => {},
            },
            Phase::TagOutput => match event {
                Event::TagsWritten => {
                    self.phase = Phase::Teardown;
                },
                Event::TagsWriteFailed => {
                    self.error = Some(RunError::TagWriteFailure);
                    self.phase = Phase::Aborted;
                },
                _ => {},
            },
            Phase::Teardown => match event {
                Event::WorkspaceRemoved => {
                    self.teardown_clean = true;
                    self.phase = Phase::Finished;
                },
                Event::WorkspaceRemoveFailed => {
                    self.teardown_clean = false;
                    self.phase = Phase::Finished;
                },
                _ => {},
            },
            Phase::Finished => {},
            Phase::Aborted => {},
        }
        proof {
            assert(self@ =~~= spec_step(old(self)@, e0));
            lemma_inv_step(old(self)@, e0);
        }
    }

    /// The output path the run was configured with.
    pub fn output(&self) -> (r: &String)
        ensures
            r@ == self@.output,
    {
        &self.output
    }

    /// The bitrate the transcode was configured with.
    pub fn bitrate(&self) -> (r: &String)
        ensures
            r@ == self@.bitrate,
    {
        &self.bitrate
    }

    /// The drive the run settled on (the requested one until resolution
    /// replaces it with a discovered one).
    pub fn drive_name(&self) -> (r: &String)
        ensures
            r@ == self@.drive,
    {
        &self.drive
    }

    /// The workspace directory of this run.
    pub fn workspace(&self) -> (r: &String)
        ensures
            r@ == self@.ws,
    {
        &self.ws
    }

    /// The current disc's track list, in enumeration order.
    pub fn tracks(&self) -> (r: &Vec<String>)
        ensures
            r.deep_view() == self@.tracks,
    {
        &self.tracks
    }

    /// The metadata record, once collected.
    pub fn metadata(&self) -> (r: &Option<MetadataSet>)
        ensures
            (match *r {
                Some(md) => self@.meta == Some(md@),
                None => self@.meta is None,
            }),
    {
        &self.meta
    }
}

} // verus!

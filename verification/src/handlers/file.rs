//! Uploads: a multipart body is taken part by part, each part checked
//! against the quota and the path guard before its file is created, and
//! then written chunk by chunk.

use vstd::prelude::*;
use crate::handlers::{account_folder, dotdot_survives_join, dotted_root, join, joined};
use crate::handlers::{dotted_path, settle, settled};
use crate::middleware::CanUpload;
use crate::models::Rename;
use crate::reserr::ResErr;
use crate::utils::{contains_dotdot, has_dotdot, path_verdict, WalkFailed};
use crate::utils::{PATH_HAS_DOTDOT, PATH_MISSING};

verus! {

/// The answer to a part without a content disposition.
pub const NO_DISPOSITION: &'static str = "cant find content disposition";

/// The answer to a part whose content disposition names no file.
pub const NO_FILENAME: &'static str = "cant find filename";

/// The error of an upload whose account could not be measured.
pub const COUNTER_BROKEN: &'static str = "folder size counter is broaken";

/// The error of an upload to an account that is over its quota.
pub const NO_SPACE: &'static str = "you dont have size";

/// The error of an upload whose file could not be created.
pub const CREATE_FAILED: &'static str = "field creating file";

/// The error of an upload whose bytes could not be read or written.
pub const STREAM_FAILED: &'static str = "field stream of bytes";

/// The answer to an upload that went through.
pub const FILE_SAVED: &'static str = "file saved";

/// How a part of a multipart body introduces itself.
#[derive(Debug, PartialEq, Eq)]
pub enum PartHead {
    /// The part has no content disposition.
    NoDisposition,
    /// Its content disposition names no file.
    NoFilename,
    /// Its content disposition names this file.
    Named(String),
}

/// What the server reports back to an upload after the step it was asked
/// to take.
#[derive(Debug, PartialEq, Eq)]
pub enum UploadEvent {
    /// The body has another part.
    Part(PartHead),
    /// The body has no further part, or broke off.
    BodyEnded,
    /// The account's directory was measured: the megabytes in use.
    Measured(Result<u32, WalkFailed>),
    /// Whether the target directory is on disk.
    Probed(bool),
    /// Whether the file was created.
    Created(bool),
    /// The part has another chunk; `false` where reading it failed.
    Chunk(bool),
    /// The part has no further chunk.
    PartEnded,
    /// Whether the chunk was written to the file.
    Written(bool),
}

/// `PartHead` with the file name as a sequence of characters.
pub enum PartHeadView {
    NoDisposition,
    NoFilename,
    Named(Seq<char>),
}

/// `UploadEvent` with the file name as a sequence of characters.
pub enum UploadEventView {
    Part(PartHeadView),
    BodyEnded,
    Measured(Result<u32, WalkFailed>),
    Probed(bool),
    Created(bool),
    Chunk(bool),
    PartEnded,
    Written(bool),
}

impl View for PartHead {
    type V = PartHeadView;

    open spec fn view(&self) -> PartHeadView {
        match self {
            PartHead::NoDisposition => PartHeadView::NoDisposition,
            PartHead::NoFilename => PartHeadView::NoFilename,
            PartHead::Named(name) => PartHeadView::Named(name@),
        }
    }
}

impl View for UploadEvent {
    type V = UploadEventView;

    open spec fn view(&self) -> UploadEventView {
        match self {
            UploadEvent::Part(head) => UploadEventView::Part(head@),
            UploadEvent::BodyEnded => UploadEventView::BodyEnded,
            UploadEvent::Measured(used) => UploadEventView::Measured(*used),
            UploadEvent::Probed(exists) => UploadEventView::Probed(*exists),
            UploadEvent::Created(ok) => UploadEventView::Created(*ok),
            UploadEvent::Chunk(ok) => UploadEventView::Chunk(*ok),
            UploadEvent::PartEnded => UploadEventView::PartEnded,
            UploadEvent::Written(ok) => UploadEventView::Written(*ok),
        }
    }
}

/// What an upload answers with when it ends without an error.
#[derive(Debug, Clone, Copy, PartialEq, Eq)]
pub enum UploadReply {
    /// Status 200: every part was saved.
    Saved,
    /// Status 400, with these words: a part did not name its file.
    BadRequest(&'static str),
}

/// Why an upload ends with an error.
#[derive(Debug, Clone, Copy, PartialEq, Eq)]
pub enum UploadFailure {
    /// The directory of the account could not be measured.
    Unmeasured,
    /// The account uses more than its quota.
    QuotaExceeded,
    /// The path guard turned the target directory down, with these words.
    PathRejected(&'static str),
    /// The file could not be created.
    NotCreated,
    /// A chunk could not be read, or could not be written.
    StreamBroken,
}

impl UploadFailure {
    /// The failure as the error that the request is answered with: what
    /// the client asked for wrongly is bad client data, what the disk or
    /// the transport refused is an internal error.
    pub open spec fn response(self) -> ResErr {
        match self {
            UploadFailure::Unmeasured => ResErr::InternalError(COUNTER_BROKEN),
            UploadFailure::QuotaExceeded => ResErr::BadClientData(NO_SPACE),
            UploadFailure::PathRejected(words) => ResErr::BadClientData(words),
            UploadFailure::NotCreated => ResErr::InternalError(CREATE_FAILED),
            UploadFailure::StreamBroken => ResErr::InternalError(STREAM_FAILED),
        }
    }

    /// The failure as the error that the request is answered with.
    pub fn into_response(self) -> (error: ResErr)
        ensures
            error == self.response(),
            error is BadClientData <==> self is QuotaExceeded || self is PathRejected,
            error is InternalError <==> !(self is QuotaExceeded || self is PathRejected),
    {
        match self {
            UploadFailure::Unmeasured => ResErr::InternalError(COUNTER_BROKEN),
            UploadFailure::QuotaExceeded => ResErr::BadClientData(NO_SPACE),
            UploadFailure::PathRejected(words) => ResErr::BadClientData(words),
            UploadFailure::NotCreated => ResErr::InternalError(CREATE_FAILED),
            UploadFailure::StreamBroken => ResErr::InternalError(STREAM_FAILED),
        }
    }
}

/// Where an upload stands.
#[derive(Debug, Clone, Copy, PartialEq, Eq)]
pub enum Stage {
    /// Waiting for the next part of the body.
    AwaitPart,
    /// A part has named its file; the account's directory is being
    /// measured.
    Measuring,
    /// The account is within its quota; the target directory is being
    /// looked for on disk.
    Probing,
    /// The target directory is there; the file is being created.
    Creating,
    /// The file is open; waiting for the next chunk of the part.
    AwaitChunk,
    /// A chunk has come; it is being written.
    Writing,
    /// The upload has ended, with this outcome.
    Done(Result<UploadReply, UploadFailure>),
}

/// The step that the server is asked to take for an upload.
#[derive(Debug, Clone, Copy, PartialEq, Eq, Structural)]
pub enum UploadAction {
    /// Take the next part of the body and report its head.
    NextPart,
    /// Measure the account's directory.
    Measure,
    /// Look whether the target directory is on disk.
    Probe,
    /// Create the file, emptying one that is there.
    Create,
    /// Take the next chunk of the part.
    NextChunk,
    /// Write the chunk to the file.
    Write,
    /// Answer the request with the outcome.
    Finish,
}

/// An upload in progress: what it was started with, the file that the
/// current part names, and where it stands.
///
/// An upload is made by `post_file` and moved on by `step` only, so that
/// it never asks for its target directory unless the path of that is free
/// of `..`.
#[derive(Debug, PartialEq, Eq)]
pub struct Upload {
    quota: u32,
    main_folder: String,
    target: String,
    filename: String,
    stage: Stage,
}

/// An upload as a mathematical value.
pub struct UploadView {
    /// The quota of the account, in megabytes.
    pub quota: u32,
    /// The directory of the account.
    pub main_folder: Seq<char>,
    /// The directory below it that the request names.
    pub target: Seq<char>,
    /// The file that the current part names; empty before the first.
    pub filename: Seq<char>,
    pub stage: Stage,
}

impl View for Upload {
    type V = UploadView;

    closed spec fn view(&self) -> UploadView {
        UploadView {
            quota: self.quota,
            main_folder: self.main_folder@,
            target: self.target@,
            filename: self.filename@,
            stage: self.stage,
        }
    }
}

/// Whether `action` needs the target directory of an upload: to look for
/// it, or to create or fill a file in it.
pub open spec fn needs_target(action: UploadAction) -> bool {
    action == UploadAction::Probe || action == UploadAction::Create || action
        == UploadAction::NextChunk || action == UploadAction::Write
}

impl UploadView {
    /// The directory that the upload writes into.
    pub open spec fn target_dir(self) -> Seq<char> {
        joined(self.main_folder, self.target)
    }

    /// The file that the current part is written to.
    pub open spec fn file_path(self) -> Seq<char> {
        joined(self.target_dir(), self.filename)
    }

    /// Whether the upload may stand where it stands: it goes to its
    /// target directory only where the path of that is free of `..`.
    pub open spec fn guarded(self) -> bool {
        needs_target(self.action()) ==> !contains_dotdot(self.target_dir())
    }

    /// The upload at another stage.
    pub open spec fn at(self, stage: Stage) -> UploadView {
        UploadView { stage, ..self }
    }

    /// The step that the server is asked to take.
    pub open spec fn action(self) -> UploadAction {
        match self.stage {
            Stage::AwaitPart => UploadAction::NextPart,
            Stage::Measuring => UploadAction::Measure,
            Stage::Probing => UploadAction::Probe,
            Stage::Creating => UploadAction::Create,
            Stage::AwaitChunk => UploadAction::NextChunk,
            Stage::Writing => UploadAction::Write,
            Stage::Done(_) => UploadAction::Finish,
        }
    }

    /// Whether `event` reports on the step that the upload asked for.
    pub open spec fn expects(self, event: UploadEventView) -> bool {
        match self.stage {
            Stage::AwaitPart => event is Part || event is BodyEnded,
            Stage::Measuring => event is Measured,
            Stage::Probing => event is Probed,
            Stage::Creating => event is Created,
            Stage::AwaitChunk => event is Chunk || event is PartEnded,
            Stage::Writing => event is Written,
            Stage::Done(_) => false,
        }
    }

    /// The upload after `event`.
    ///
    /// A part that does not name its file ends the upload with a reply of
    /// status 400. A part that does is measured against the quota, then
    /// its target directory against the path guard, each before the file is
    /// created; then its chunks are written one by one, and the next part
    /// is taken. The first failure ends the upload.
    pub open spec fn next(self, event: UploadEventView) -> UploadView {
        match (self.stage, event) {
            (Stage::AwaitPart, UploadEventView::Part(PartHeadView::NoDisposition)) => self.at(
                Stage::Done(Ok(UploadReply::BadRequest(NO_DISPOSITION))),
            ),
            (Stage::AwaitPart, UploadEventView::Part(PartHeadView::NoFilename)) => self.at(
                Stage::Done(Ok(UploadReply::BadRequest(NO_FILENAME))),
            ),
            (Stage::AwaitPart, UploadEventView::Part(PartHeadView::Named(name))) => UploadView {
                filename: name,
                stage: Stage::Measuring,
                ..self
            },
            (Stage::AwaitPart, UploadEventView::BodyEnded) => self.at(
                Stage::Done(Ok(UploadReply::Saved)),
            ),
            (Stage::Measuring, UploadEventView::Measured(Err(_))) => self.at(
                Stage::Done(Err(UploadFailure::Unmeasured)),
            ),
            (Stage::Measuring, UploadEventView::Measured(Ok(used))) => if used > self.quota {
                self.at(Stage::Done(Err(UploadFailure::QuotaExceeded)))
            } else if contains_dotdot(self.target_dir()) {
                self.at(Stage::Done(Err(UploadFailure::PathRejected(PATH_HAS_DOTDOT))))
            } else {
                self.at(Stage::Probing)
            },
            (Stage::Probing, UploadEventView::Probed(exists)) => if exists {
                self.at(Stage::Creating)
            } else {
                self.at(Stage::Done(Err(UploadFailure::PathRejected(PATH_MISSING))))
            },
            (Stage::Creating, UploadEventView::Created(ok)) => if ok {
                self.at(Stage::AwaitChunk)
            } else {
                self.at(Stage::Done(Err(UploadFailure::NotCreated)))
            },
            (Stage::AwaitChunk, UploadEventView::Chunk(ok)) => if ok {
                self.at(Stage::Writing)
            } else {
                self.at(Stage::Done(Err(UploadFailure::StreamBroken)))
            },
            (Stage::AwaitChunk, UploadEventView::PartEnded) => self.at(Stage::AwaitPart),
            (Stage::Writing, UploadEventView::Written(ok)) => if ok {
                self.at(Stage::AwaitChunk)
            } else {
                self.at(Stage::Done(Err(UploadFailure::StreamBroken)))
            },
            _ => self,
        }
    }
}

impl UploadEvent {
    /// Whether the event reports on `action`.
    pub fn answers(&self, action: UploadAction) -> (fits: bool)
        ensures
            fits == match action {
                UploadAction::NextPart => self is Part || self is BodyEnded,
                UploadAction::Measure => self is Measured,
                UploadAction::Probe => self is Probed,
                UploadAction::Create => self is Created,
                UploadAction::NextChunk => self is Chunk || self is PartEnded,
                UploadAction::Write => self is Written,
                UploadAction::Finish => false,
            },
    {
        match action {
            UploadAction::NextPart => matches!(self, UploadEvent::Part(_) | UploadEvent::BodyEnded),
            UploadAction::Measure => matches!(self, UploadEvent::Measured(_)),
            UploadAction::Probe => matches!(self, UploadEvent::Probed(_)),
            UploadAction::Create => matches!(self, UploadEvent::Created(_)),
            UploadAction::NextChunk => matches!(self, UploadEvent::Chunk(_) | UploadEvent::PartEnded),
            UploadAction::Write => matches!(self, UploadEvent::Written(_)),
            UploadAction::Finish => false,
        }
    }
}

impl Upload {
    #[verifier::type_invariant]
    spec fn is_guarded(&self) -> bool {
        self@.guarded()
    }

    /// The step that the server is asked to take.
    pub fn action(&self) -> (action: UploadAction)
        ensures
            action == self@.action(),
    {
        match self.stage {
            Stage::AwaitPart => UploadAction::NextPart,
            Stage::Measuring => UploadAction::Measure,
            Stage::Probing => UploadAction::Probe,
            Stage::Creating => UploadAction::Create,
            Stage::AwaitChunk => UploadAction::NextChunk,
            Stage::Writing => UploadAction::Write,
            Stage::Done(_) => UploadAction::Finish,
        }
    }

    /// The quota of the account, in megabytes.
    pub fn quota(&self) -> (quota: u32)
        ensures
            quota == self@.quota,
    {
        self.quota
    }

    /// The directory of the account, which is measured against the quota.
    pub fn main_folder(&self) -> (path: &str)
        ensures
            path@ == self@.main_folder,
    {
        self.main_folder.as_str()
    }

    /// The file that the current part names; empty before the first.
    pub fn filename(&self) -> (name: &str)
        ensures
            name@ == self@.filename,
    {
        self.filename.as_str()
    }

    /// The directory that the upload writes into: the target below the
    /// account's directory. Where the upload asks for it, it is free of
    /// `..`.
    pub fn target_dir(&self) -> (path: String)
        ensures
            path@ == self@.target_dir(),
            needs_target(self@.action()) ==> !contains_dotdot(path@),
    {
        proof {
            use_type_invariant(self);
        }
        join(self.main_folder.as_str(), self.target.as_str())
    }

    /// The file that the current part is written to: the file that the
    /// part names, below the target directory.
    pub fn file_path(&self) -> (path: String)
        ensures
            path@ == self@.file_path(),
            needs_target(self@.action()) ==> !contains_dotdot(self@.target_dir()),
    {
        let dir = self.target_dir();
        join(dir.as_str(), self.filename.as_str())
    }

    /// The upload after `event`, which reports on the step that the upload
    /// asked for.
    pub fn step(self, event: UploadEvent) -> (next: Upload)
        requires
            self@.expects(event@),
        ensures
            next@ == self@.next(event@),
    {
        proof {
            use_type_invariant(&self);
        }
        let Upload { quota, main_folder, target, filename, stage } = self;
        match (stage, event) {
            (Stage::AwaitPart, UploadEvent::Part(PartHead::NoDisposition)) => Upload {
                quota,
                main_folder,
                target,
                filename,
                stage: Stage::Done(Ok(UploadReply::BadRequest(NO_DISPOSITION))),
            },
            (Stage::AwaitPart, UploadEvent::Part(PartHead::NoFilename)) => Upload {
                quota,
                main_folder,
                target,
                filename,
                stage: Stage::Done(Ok(UploadReply::BadRequest(NO_FILENAME))),
            },
            (Stage::AwaitPart, UploadEvent::Part(PartHead::Named(name))) => Upload {
                quota,
                main_folder,
                target,
                filename: name,
                stage: Stage::Measuring,
            },
            (Stage::AwaitPart, UploadEvent::BodyEnded) => Upload {
                quota,
                main_folder,
                target,
                filename,
                stage: Stage::Done(Ok(UploadReply::Saved)),
            },
            (Stage::Measuring, UploadEvent::Measured(Err(_))) => Upload {
                quota,
                main_folder,
                target,
                filename,
                stage: Stage::Done(Err(UploadFailure::Unmeasured)),
            },
            (Stage::Measuring, UploadEvent::Measured(Ok(used))) => {
                let stage = if used > quota {
                    Stage::Done(Err(UploadFailure::QuotaExceeded))
                } else {
                    let dir = join(main_folder.as_str(), target.as_str());
                    if has_dotdot(dir.as_str()) {
                        Stage::Done(Err(UploadFailure::PathRejected(PATH_HAS_DOTDOT)))
                    } else {
                        Stage::Probing
                    }
                };
                Upload { quota, main_folder, target, filename, stage }
            },
            (Stage::Probing, UploadEvent::Probed(exists)) => {
                let stage = if exists {
                    Stage::Creating
                } else {
                    Stage::Done(Err(UploadFailure::PathRejected(PATH_MISSING)))
                };
                Upload { quota, main_folder, target, filename, stage }
            },
            (Stage::Creating, UploadEvent::Created(ok)) => {
                let stage = if ok {
                    Stage::AwaitChunk
                } else {
                    Stage::Done(Err(UploadFailure::NotCreated))
                };
                Upload { quota, main_folder, target, filename, stage }
            },
            (Stage::AwaitChunk, UploadEvent::Chunk(ok)) => {
                let stage = if ok {
                    Stage::Writing
                } else {
                    Stage::Done(Err(UploadFailure::StreamBroken))
                };
                Upload { quota, main_folder, target, filename, stage }
            },
            (Stage::AwaitChunk, UploadEvent::PartEnded) => Upload {
                quota,
                main_folder,
                target,
                filename,
                stage: Stage::AwaitPart,
            },
            (Stage::Writing, UploadEvent::Written(ok)) => {
                let stage = if ok {
                    Stage::AwaitChunk
                } else {
                    Stage::Done(Err(UploadFailure::StreamBroken))
                };
                Upload { quota, main_folder, target, filename, stage }
            },
            (stage, _) => Upload { quota, main_folder, target, filename, stage },
        }
    }

    /// The outcome of an upload that has ended; `None` while it goes on.
    pub fn outcome(self) -> (r: Option<Result<UploadReply, UploadFailure>>)
        ensures
            r == match self@.stage {
                Stage::Done(outcome) => Some(outcome),
                _ => None,
            },
    {
        match self.stage {
            Stage::Done(outcome) => Some(outcome),
            _ => None,
        }
    }
}

/// The answer to a probe that found the file.
pub const FILE_EXIST: &'static str = "file exist";

/// The error of a probe that found no file.
pub const FILE_DONT_EXIST: &'static str = "file dont exist";

/// The answer to a renaming that was done.
pub const RENAMED: &'static str = "renamed";

/// The error of a renaming that failed.
pub const CAN_NOT_BE_RENAMED: &'static str = "can not be renamed";

/// The error of a file that could not be opened or removed.
pub const FILE_NOT_FOUND: &'static str = "file not found";

/// The answer to a deletion that was done.
pub const FILE_DELETED: &'static str = "file deleted";

/// Answers the question whether a file of the account exists; `exists`
/// says whether its path is on disk.
pub fn get_file_exist(exists: bool) -> (r: Result<&'static str, ResErr>)
    ensures
        r == settled(exists, FILE_EXIST, FILE_DONT_EXIST),
{
    settle(exists, FILE_EXIST, FILE_DONT_EXIST)
}

/// The path that a file of the account has and the path that it is to
/// get: the old and the new name, each below the account's directory.
pub fn rename_paths(token: &CanUpload, cloud_path: &str, filename: &str, rename: &Rename) -> (paths:
    (String, String))
    ensures
        paths.0@ == joined(dotted_root(cloud_path@, token.path@), filename@),
        paths.1@ == joined(dotted_root(cloud_path@, token.path@), rename.name@),
{
    (
        dotted_path(cloud_path, token.path.as_str(), filename),
        dotted_path(cloud_path, token.path.as_str(), rename.name.as_str()),
    )
}

/// Answers a renaming; `renamed` says whether it was done.
pub fn rename_file(renamed: bool) -> (r: Result<&'static str, ResErr>)
    ensures
        r == settled(renamed, RENAMED, CAN_NOT_BE_RENAMED),
{
    settle(renamed, RENAMED, CAN_NOT_BE_RENAMED)
}

/// Answers a download; `opened` says whether the file could be opened.
/// Where it could, the file itself is the answer.
pub fn get_file(opened: bool) -> (r: Result<(), ResErr>)
    ensures
        r == if opened {
            Ok::<(), ResErr>(())
        } else {
            Err(ResErr::BadClientData(FILE_NOT_FOUND))
        },
{
    if opened {
        Ok(())
    } else {
        Err(ResErr::BadClientData(FILE_NOT_FOUND))
    }
}

/// Begins the upload of a multipart body into the directory `target` of
/// the account that `token` admits, below the storage root `cloud_path`.
pub fn post_file(token: &CanUpload, cloud_path: &str, target: String) -> (upload: Upload)
    ensures
        upload@ == (UploadView {
            quota: token.size,
            main_folder: dotted_root(cloud_path@, token.path@),
            target: target@,
            filename: Seq::empty(),
            stage: Stage::AwaitPart,
        }),
{
    Upload {
        quota: token.size,
        main_folder: account_folder(cloud_path, token.path.as_str()),
        target,
        filename: String::new(),
        stage: Stage::AwaitPart,
    }
}

/// Answers a deletion; `removed` says whether the file was removed.
pub fn delete_file(removed: bool) -> (r: Result<&'static str, ResErr>)
    ensures
        r == settled(removed, FILE_DELETED, FILE_NOT_FOUND),
{
    settle(removed, FILE_DELETED, FILE_NOT_FOUND)
}

/// The upload after each of `events` in turn.
pub open spec fn run(start: UploadView, events: Seq<UploadEventView>) -> UploadView
    decreases events.len(),
{
    if events.len() == 0 {
        start
    } else {
        run(start, events.drop_last()).next(events.last())
    }
}

/// Whether each of `events` reports on the step that the upload asked for
/// when it came.
pub open spec fn well_fed(start: UploadView, events: Seq<UploadEventView>) -> bool
    decreases events.len(),
{
    events.len() == 0 || (well_fed(start, events.drop_last()) && run(
        start,
        events.drop_last(),
    ).expects(events.last()))
}

/// Whether `action` touches the file of an upload.
pub open spec fn touches_disk(action: UploadAction) -> bool {
    action == UploadAction::Create || action == UploadAction::Write
}

/// A part that begins while the account is over its quota ends the upload
/// with the error of an exceeded quota. Up to there the upload asks for
/// the part and for the measurement only: no file is created, no chunk is
/// asked for and none is written, whatever the part holds.
pub proof fn over_quota_writes_nothing(start: UploadView, name: Seq<char>, used: u32)
    requires
        start.stage is AwaitPart,
        used > start.quota,
    ensures
        ({
            let named = start.next(UploadEventView::Part(PartHeadView::Named(name)));
            let judged = named.next(UploadEventView::Measured(Ok(used)));
            &&& start.action() == UploadAction::NextPart
            &&& named.action() == UploadAction::Measure
            &&& judged.action() == UploadAction::Finish
            &&& judged.stage == Stage::Done(Err(UploadFailure::QuotaExceeded))
        }),
{
}

/// The file of a part is created only right after its target directory
/// was found on disk, and that is looked for only right after the account
/// was measured within its quota and the target directory was found free
/// of `..`.
pub proof fn create_follows_the_checks(before: UploadView, event: UploadEventView)
    requires
        before.expects(event),
    ensures
        before.next(event).action() == UploadAction::Create ==> before.stage is Probing && event
            == UploadEventView::Probed(true),
        before.next(event).action() == UploadAction::Probe ==> before.stage is Measuring && (
        event matches UploadEventView::Measured(Ok(used)) && used <= before.quota)
            && !contains_dotdot(before.target_dir()),
{
}

/// For a part that is measured within the quota, the path guard decides
/// over the target directory, in two steps: a path with `..` in it ends
/// the upload at once, any other is looked for on disk. The file is
/// created exactly where the guard lets the path through, and the upload
/// ends with the words of the guard where it does not.
pub proof fn path_guard_decides(measuring: UploadView, used: u32, exists: bool)
    requires
        measuring.stage is Measuring,
        used <= measuring.quota,
    ensures
        ({
            let judged = measuring.next(UploadEventView::Measured(Ok(used)));
            let settled = if judged.stage is Probing {
                judged.next(UploadEventView::Probed(exists))
            } else {
                judged
            };
            match path_verdict(measuring.target_dir(), exists) {
                Ok(_) => settled.stage is Creating,
                Err(words) => settled.stage == Stage::Done(Err(UploadFailure::PathRejected(words))),
            }
        }),
{
}

/// A chunk is written only right after it was read, and chunks are asked
/// for only while a file is open: right after it was created, or after
/// the chunk before was written.
pub proof fn write_follows_a_chunk(before: UploadView, event: UploadEventView)
    requires
        before.expects(event),
    ensures
        before.next(event).action() == UploadAction::Write ==> before.stage is AwaitChunk && event
            == UploadEventView::Chunk(true),
        before.next(event).action() == UploadAction::NextChunk ==> (before.stage is Creating
            && event == UploadEventView::Created(true)) || (before.stage is Writing && event
            == UploadEventView::Written(true)),
{
}

/// Whatever the server reports, an upload keeps its quota and its
/// directories, and goes to its target directory only where the path of
/// that is free of `..`.
pub proof fn target_is_guarded(start: UploadView, events: Seq<UploadEventView>)
    requires
        start.stage is AwaitPart,
        well_fed(start, events),
    ensures
        run(start, events).quota == start.quota,
        run(start, events).main_folder == start.main_folder,
        run(start, events).target == start.target,
        needs_target(run(start, events).action()) ==> !contains_dotdot(start.target_dir()),
    decreases events.len(),
{
    if events.len() > 0 {
        target_is_guarded(start, events.drop_last());
    }
}

/// An upload whose target names a parent directory never gets to the
/// disk: whatever the server reports, the upload asks only for parts and
/// measurements until it ends.
pub proof fn traversal_never_writes(start: UploadView, events: Seq<UploadEventView>)
    requires
        start.stage is AwaitPart,
        contains_dotdot(start.target),
        well_fed(start, events),
    ensures
        !needs_target(run(start, events).action()),
        !touches_disk(run(start, events).action()),
{
    target_is_guarded(start, events);
    dotdot_survives_join(start.main_folder, start.target);
}

/// Whatever the server reports, a file is created only at the end of
/// three steps in a row: a part named its file, the account was then
/// measured within its quota, and the target directory was then found on
/// disk.
pub proof fn creation_is_earned(start: UploadView, events: Seq<UploadEventView>)
    requires
        start.stage is AwaitPart,
        well_fed(start, events),
        run(start, events).action() == UploadAction::Create,
    ensures
        events.len() >= 3,
        events[events.len() - 3] matches UploadEventView::Part(PartHeadView::Named(name))
            && run(start, events).filename == name,
        events[events.len() - 2] matches UploadEventView::Measured(Ok(used)) && used
            <= start.quota,
        events[events.len() - 1] == UploadEventView::Probed(true),
        !contains_dotdot(start.target_dir()),
{
    reveal_with_fuel(well_fed, 4);
    reveal_with_fuel(run, 4);
    let n = events.len() as int;
    target_is_guarded(start, events);
    assert(n >= 1);
    let probed = events.drop_last();
    let probing = run(start, probed);
    create_follows_the_checks(probing, events.last());
    target_is_guarded(start, probed);
    assert(probed.len() >= 1);
    let measured = probed.drop_last();
    let measuring = run(start, measured);
    create_follows_the_checks(measuring, probed.last());
    target_is_guarded(start, measured);
    assert(measured.len() >= 1);
    let named = measured.drop_last();
    assert(run(start, named).stage is AwaitPart);
    assert(probed.last() == events[n - 2]);
    assert(measured.last() == events[n - 3]);
}

} // verus!

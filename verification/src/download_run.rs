//! A download from its start to its end.
//!
//! A [`DownloadRun`] names what is to be done next on the remote store or
//! the file system; the caller does it and reports what happened. The
//! body is written to a temporary file. Only a download that received the
//! whole body, with the checksum that the remote store reported, promotes
//! that file to its final name; every failure, at whatever stage, ends the
//! run, leaves its text in the progress and discards the file.

use vstd::prelude::*;
use crate::download::{
    check_destination, check_final_path, check_record, checksum_verdict, chunk_outcome,
    chunk_view, destination_allowed, final_path_allowed, target_of, unit_result_view,
    verify_checksum, DownloadError, DownloadTarget, ErrorView, Receiver, RecordView,
    RemoteRecord, TargetView,
};
use crate::progress::{DownloadProgress, DownloadProgressView};
use crate::text::{copy_opt, join2, opt_text};

verus! {

/// What a download waits for.
#[derive(Clone, Copy, Debug, PartialEq, Eq, Structural)]
pub enum Stage {
    /// The record of the item.
    Record,
    /// What the file system says of the destination.
    Destination,
    /// What the file system says of the final name.
    FinalPath,
    /// The body to be opened and the temporary file to be created.
    Stream,
    /// The next chunk of the body, or its end.
    Body,
    /// The chunk to be written.
    Write,
    /// The temporary file to be renamed.
    Rename,
    /// Nothing: the download has ended.
    Ended,
}

/// What happened outside.
#[derive(Debug, PartialEq, Eq)]
pub enum DownloadEvent {
    /// The remote store returned the record of the item, or failed.
    Record(Result<RemoteRecord, String>),
    /// The destination was looked at: whether it exists, whether it is a
    /// directory, and whether its absolute path could be resolved.
    Destination { exists: bool, is_dir: bool, resolved: Result<(), String> },
    /// The final name was looked at: the path it stands for, and whether
    /// a file exists there.
    FinalPath { path: String, exists: bool },
    /// The body was opened and the temporary file created, or not.
    Stream(Result<(), String>),
    /// A chunk of the given length arrived, or the transport failed.
    /// `cancelled` tells whether the job was cancelled by then.
    Chunk { cancelled: bool, arrived: Result<usize, String> },
    /// The chunk was written, or not.
    Written(Result<(), String>),
    /// The body ended; `checksum` is computed over what was written.
    End { checksum: String },
    /// The temporary file was renamed, or not.
    Renamed(Result<(), String>),
}

/// The mathematical value of a [`DownloadEvent`].
pub enum EventView {
    Record(Result<RecordView, Seq<char>>),
    Destination { exists: bool, is_dir: bool, resolved: Result<(), Seq<char>> },
    FinalPath { path: Seq<char>, exists: bool },
    Stream(Result<(), Seq<char>>),
    Chunk { cancelled: bool, arrived: Result<usize, Seq<char>> },
    Written(Result<(), Seq<char>>),
    End { checksum: Seq<char> },
    Renamed(Result<(), Seq<char>>),
}

/// The view of an outcome without a value.
pub open spec fn done_view(r: Result<(), String>) -> Result<(), Seq<char>> {
    match r {
        Ok(_) => Ok(()),
        Err(e) => Err(e@),
    }
}

impl View for DownloadEvent {
    type V = EventView;

    open spec fn view(&self) -> EventView {
        match self {
            DownloadEvent::Record(r) => EventView::Record(
                match r {
                    Ok(record) => Ok(record@),
                    Err(e) => Err(e@),
                },
            ),
            DownloadEvent::Destination { exists, is_dir, resolved } => EventView::Destination {
                exists: *exists,
                is_dir: *is_dir,
                resolved: done_view(*resolved),
            },
            DownloadEvent::FinalPath { path, exists } => EventView::FinalPath {
                path: path@,
                exists: *exists,
            },
            DownloadEvent::Stream(r) => EventView::Stream(done_view(*r)),
            DownloadEvent::Chunk { cancelled, arrived } => EventView::Chunk {
                cancelled: *cancelled,
                arrived: chunk_view(*arrived),
            },
            DownloadEvent::Written(r) => EventView::Written(done_view(*r)),
            DownloadEvent::End { checksum } => EventView::End { checksum: checksum@ },
            DownloadEvent::Renamed(r) => EventView::Renamed(done_view(*r)),
        }
    }
}

/// What is to be done next. The caller reports the outcome as the event
/// of the same kind.
#[derive(Clone, Debug, PartialEq, Eq)]
pub enum DownloadAction {
    /// Fetch the record of the item.
    FetchRecord,
    /// Look at the destination `path`, or at the working directory where
    /// none is given, and resolve its absolute path.
    ProbeDestination { path: Option<String> },
    /// Look at the final name: `file_name` inside the destination.
    ProbeFinalPath { file_name: String },
    /// Open the body and create the temporary file.
    OpenStream,
    /// Wait for the next chunk of the body, or for its end.
    Receive,
    /// Write the chunk that arrived to the temporary file.
    Write,
    /// Rename the temporary file to the final name.
    Promote,
    /// Remove the temporary file, if there is one: the download failed.
    Discard,
    /// Nothing is left to do.
    Finished,
}

/// The mathematical value of a [`DownloadAction`].
pub enum ActionView {
    FetchRecord,
    ProbeDestination { path: Option<Seq<char>> },
    ProbeFinalPath { file_name: Seq<char> },
    OpenStream,
    Receive,
    Write,
    Promote,
    Discard,
    Finished,
}

impl View for DownloadAction {
    type V = ActionView;

    open spec fn view(&self) -> ActionView {
        match self {
            DownloadAction::FetchRecord => ActionView::FetchRecord,
            DownloadAction::ProbeDestination { path } => ActionView::ProbeDestination {
                path: opt_text(*path),
            },
            DownloadAction::ProbeFinalPath { file_name } => ActionView::ProbeFinalPath {
                file_name: file_name@,
            },
            DownloadAction::OpenStream => ActionView::OpenStream,
            DownloadAction::Receive => ActionView::Receive,
            DownloadAction::Write => ActionView::Write,
            DownloadAction::Promote => ActionView::Promote,
            DownloadAction::Discard => ActionView::Discard,
            DownloadAction::Finished => ActionView::Finished,
        }
    }
}

/// A download in progress.
#[derive(Debug)]
pub struct DownloadRun {
    /// Where the file goes; none for the working directory.
    pub destination: Option<String>,
    pub stage: Stage,
    /// What is downloaded, once the record is known.
    pub target: Option<DownloadTarget>,
    /// The count of the bytes received.
    pub receiver: Receiver,
}

/// The mathematical value of a [`DownloadRun`].
pub struct DownloadView {
    pub destination: Option<Seq<char>>,
    pub stage: Stage,
    pub target: Option<TargetView>,
    pub written: u64,
}

impl View for DownloadRun {
    type V = DownloadView;

    open spec fn view(&self) -> DownloadView {
        DownloadView {
            destination: opt_text(self.destination),
            stage: self.stage,
            target: match self.target {
                Some(t) => Some(t@),
                None => None,
            },
            written: self.receiver.written,
        }
    }
}

/// The run, the action and the progress after an event.
pub struct Outcome {
    pub run: DownloadView,
    pub action: ActionView,
    pub progress: DownloadProgressView,
}

impl DownloadView {
    /// A run that waits for the record of the item.
    pub open spec fn start(destination: Option<Seq<char>>) -> DownloadView {
        DownloadView { destination, stage: Stage::Record, target: None, written: 0 }
    }

    /// The checksum that the content must have, where one is known.
    pub open spec fn expected_checksum(self) -> Option<Seq<char>> {
        match self.target {
            Some(t) => t.checksum,
            None => None,
        }
    }

    /// The name of the file, as far as it is known.
    pub open spec fn file_name(self) -> Seq<char> {
        match self.target {
            Some(t) => t.file_name,
            None => Seq::empty(),
        }
    }

    /// The run goes on in `stage` with `action`.
    pub open spec fn proceed(self, stage: Stage, action: ActionView, p: DownloadProgressView) -> Outcome {
        Outcome { run: DownloadView { stage, ..self }, action, progress: p }
    }

    /// The run ends with the error `e`: the progress is done and holds the
    /// text of the error, and the temporary file is discarded.
    pub open spec fn fail(self, e: ErrorView, p: DownloadProgressView) -> Outcome {
        Outcome {
            run: DownloadView { stage: Stage::Ended, ..self },
            action: ActionView::Discard,
            progress: DownloadProgressView { done: true, error: Some(e.text()), ..p },
        }
    }

    /// The run goes on as `proceed` says, unless `outcome` is a failure of
    /// the remote store or the file system, which ends it.
    pub open spec fn unless_failed(
        self,
        outcome: Result<(), Seq<char>>,
        stage: Stage,
        action: ActionView,
        p: DownloadProgressView,
    ) -> Outcome {
        match outcome {
            Ok(_) => self.proceed(stage, action, p),
            Err(message) => self.fail(ErrorView::Transport { message }, p),
        }
    }

    /// What the destination allows: one that was given must exist and be a
    /// directory, and the absolute path must have been resolved.
    pub open spec fn destination_verdict(
        self,
        exists: bool,
        is_dir: bool,
        resolved: Result<(), Seq<char>>,
    ) -> Result<(), ErrorView> {
        let allowed = match self.destination {
            Some(path) => destination_allowed(path, exists, is_dir),
            None => Ok(()),
        };
        match allowed {
            Err(e) => Err(e),
            Ok(_) => match resolved {
                Err(e) => Err(
                    ErrorView::Transport { message: "Failed to canonicalize destination: "@ + e },
                ),
                Ok(_) => Ok(()),
            },
        }
    }

    /// The run after `event`, what is to be done next, and the progress.
    pub open spec fn advance(self, event: EventView, p: DownloadProgressView) -> Outcome {
        match (self.stage, event) {
            (Stage::Ended, _) => Outcome { run: self, action: ActionView::Finished, progress: p },
            (Stage::Record, EventView::Record(Err(message))) => self.fail(
                ErrorView::Transport { message },
                p,
            ),
            (Stage::Record, EventView::Record(Ok(record))) => match target_of(record) {
                Err(e) => self.fail(e, p),
                Ok(target) => Outcome {
                    run: DownloadView { stage: Stage::Destination, target: Some(target), ..self },
                    action: ActionView::ProbeDestination { path: self.destination },
                    progress: DownloadProgressView {
                        file_name: target.file_name,
                        total_bytes: target.total_bytes,
                        ..p
                    },
                },
            },
            (
                Stage::Destination,
                EventView::Destination { exists, is_dir, resolved },
            ) => match self.destination_verdict(exists, is_dir, resolved) {
                Err(e) => self.fail(e, p),
                Ok(_) => self.proceed(
                    Stage::FinalPath,
                    ActionView::ProbeFinalPath { file_name: self.file_name() },
                    p,
                ),
            },
            (Stage::FinalPath, EventView::FinalPath { path, exists }) => match final_path_allowed(
                path,
                exists,
            ) {
                Err(e) => self.fail(e, p),
                Ok(_) => self.proceed(Stage::Stream, ActionView::OpenStream, p),
            },
            (Stage::Stream, EventView::Stream(opened)) => self.unless_failed(
                opened,
                Stage::Body,
                ActionView::Receive,
                p,
            ),
            (Stage::Body, EventView::Chunk { cancelled, arrived }) => match chunk_outcome(
                self.written,
                cancelled,
                arrived,
            ) {
                Err(e) => self.fail(e, p),
                Ok(n) => Outcome {
                    run: DownloadView { stage: Stage::Write, written: n, ..self },
                    action: ActionView::Write,
                    progress: DownloadProgressView { current_bytes: n, ..p },
                },
            },
            (Stage::Write, EventView::Written(written)) => self.unless_failed(
                written,
                Stage::Body,
                ActionView::Receive,
                p,
            ),
            (Stage::Body, EventView::End { checksum }) => match checksum_verdict(
                self.expected_checksum(),
                checksum,
            ) {
                Err(e) => self.fail(e, p),
                Ok(_) => self.proceed(Stage::Rename, ActionView::Promote, p),
            },
            (Stage::Rename, EventView::Renamed(Err(message))) => self.fail(
                ErrorView::Transport { message },
                p,
            ),
            (Stage::Rename, EventView::Renamed(Ok(_))) => Outcome {
                run: DownloadView { stage: Stage::Ended, ..self },
                action: ActionView::Finished,
                progress: DownloadProgressView { done: true, error: None, ..p },
            },
            _ => self.fail(ErrorView::OutOfTurn, p),
        }
    }
}

impl DownloadRun {
    /// A download into `destination`, or into the working directory. The
    /// first thing to do is [`DownloadAction::FetchRecord`].
    pub fn new(destination: Option<String>) -> (r: DownloadRun)
        ensures
            r@ == DownloadView::start(opt_text(destination)),
    {
        DownloadRun { destination, stage: Stage::Record, target: None, receiver: Receiver::new() }
    }

    /// Ends the run with an error.
    fn fail(self, e: DownloadError, progress: &mut DownloadProgress) -> (r: (
        DownloadRun,
        DownloadAction,
    ))
        ensures
            r.0@ == self@.fail(e@, old(progress)@).run,
            r.1@ == self@.fail(e@, old(progress)@).action,
            final(progress)@ == self@.fail(e@, old(progress)@).progress,
    {
        progress.done = true;
        progress.error = Some(e.message());
        (
            DownloadRun {
                destination: self.destination,
                stage: Stage::Ended,
                target: self.target,
                receiver: self.receiver,
            },
            DownloadAction::Discard,
        )
    }

    /// Goes on in `stage` with `action`.
    fn proceed(self, stage: Stage, action: DownloadAction) -> (r: (DownloadRun, DownloadAction))
        ensures
            r.0@ == (DownloadView { stage, ..self@ }),
            r.1 == action,
    {
        (
            DownloadRun {
                destination: self.destination,
                stage,
                target: self.target,
                receiver: self.receiver,
            },
            action,
        )
    }

    /// Goes on as `proceed` does, unless `outcome` is a failure.
    fn unless_failed(
        self,
        outcome: Result<(), String>,
        stage: Stage,
        action: DownloadAction,
        progress: &mut DownloadProgress,
    ) -> (r: (DownloadRun, DownloadAction))
        ensures
            r.0@ == self@.unless_failed(done_view(outcome), stage, action@, old(progress)@).run,
            r.1@ == self@.unless_failed(done_view(outcome), stage, action@, old(progress)@).action,
            final(progress)@ == self@.unless_failed(
                done_view(outcome),
                stage,
                action@,
                old(progress)@,
            ).progress,
    {
        match outcome {
            Ok(_) => self.proceed(stage, action),
            Err(message) => self.fail(DownloadError::Transport { message }, progress),
        }
    }

    /// Decides whether the destination can receive the download.
    fn destination_verdict(&self, exists: bool, is_dir: bool, resolved: Result<(), String>) -> (r:
        Result<(), DownloadError>)
        ensures
            unit_result_view(r) == self@.destination_verdict(
                exists,
                is_dir,
                done_view(resolved),
            ),
    {
        match &self.destination {
            Some(path) => {
                check_destination(path.as_str(), exists, is_dir)?;
            },
            None => {},
        }
        match resolved {
            Err(e) => Err(
                DownloadError::Transport {
                    message: join2("Failed to canonicalize destination: ", e.as_str()),
                },
            ),
            Ok(_) => Ok(()),
        }
    }

    /// Takes what happened outside and names what is to be done next. The
    /// progress follows: it learns the name and the size from the record,
    /// counts the bytes received, and is done when the run has ended, with
    /// the text of the error if and only if the run failed.
    pub fn advance(self, event: DownloadEvent, progress: &mut DownloadProgress) -> (r: (
        DownloadRun,
        DownloadAction,
    ))
        ensures
            r.0@ == self@.advance(event@, old(progress)@).run,
            r.1@ == self@.advance(event@, old(progress)@).action,
            final(progress)@ == self@.advance(event@, old(progress)@).progress,
    {
        match self.stage {
            Stage::Ended => (self, DownloadAction::Finished),
            Stage::Record => match event {
                DownloadEvent::Record(Err(message)) => self.fail(
                    DownloadError::Transport { message },
                    progress,
                ),
                DownloadEvent::Record(Ok(record)) => match check_record(&record, progress) {
                    Err(e) => self.fail(e, progress),
                    Ok(target) => {
                        let path = copy_opt(&self.destination);
                        (
                            DownloadRun {
                                destination: self.destination,
                                stage: Stage::Destination,
                                target: Some(target),
                                receiver: self.receiver,
                            },
                            DownloadAction::ProbeDestination { path },
                        )
                    },
                },
                _ => self.fail(DownloadError::OutOfTurn, progress),
            },
            Stage::Destination => match event {
                DownloadEvent::Destination { exists, is_dir, resolved } => {
                    match self.destination_verdict(exists, is_dir, resolved) {
                        Err(e) => self.fail(e, progress),
                        Ok(_) => {
                            let file_name = match &self.target {
                                Some(t) => t.file_name.clone(),
                                None => String::new(),
                            };
                            self.proceed(
                                Stage::FinalPath,
                                DownloadAction::ProbeFinalPath { file_name },
                            )
                        },
                    }
                },
                _ => self.fail(DownloadError::OutOfTurn, progress),
            },
            Stage::FinalPath => match event {
                DownloadEvent::FinalPath { path, exists } => match check_final_path(
                    path.as_str(),
                    exists,
                ) {
                    Err(e) => self.fail(e, progress),
                    Ok(_) => self.proceed(Stage::Stream, DownloadAction::OpenStream),
                },
                _ => self.fail(DownloadError::OutOfTurn, progress),
            },
            Stage::Stream => match event {
                DownloadEvent::Stream(opened) => self.unless_failed(
                    opened,
                    Stage::Body,
                    DownloadAction::Receive,
                    progress,
                ),
                _ => self.fail(DownloadError::OutOfTurn, progress),
            },
            Stage::Body => match event {
                DownloadEvent::Chunk { cancelled, arrived } => {
                    let mut receiver = self.receiver;
                    match receiver.on_chunk(cancelled, arrived, progress) {
                        Err(e) => self.fail(e, progress),
                        Ok(_) => (
                            DownloadRun {
                                destination: self.destination,
                                stage: Stage::Write,
                                target: self.target,
                                receiver,
                            },
                            DownloadAction::Write,
                        ),
                    }
                },
                DownloadEvent::End { checksum } => {
                    let verdict = match &self.target {
                        Some(t) => verify_checksum(&t.checksum, &checksum),
                        None => Ok(()),
                    };
                    match verdict {
                        Err(e) => self.fail(e, progress),
                        Ok(_) => self.proceed(Stage::Rename, DownloadAction::Promote),
                    }
                },
                _ => self.fail(DownloadError::OutOfTurn, progress),
            },
            Stage::Write => match event {
                DownloadEvent::Written(written) => self.unless_failed(
                    written,
                    Stage::Body,
                    DownloadAction::Receive,
                    progress,
                ),
                _ => self.fail(DownloadError::OutOfTurn, progress),
            },
            Stage::Rename => match event {
                DownloadEvent::Renamed(Err(message)) => self.fail(
                    DownloadError::Transport { message },
                    progress,
                ),
                DownloadEvent::Renamed(Ok(_)) => {
                    progress.done = true;
                    progress.error = None;
                    self.proceed(Stage::Ended, DownloadAction::Finished)
                },
                _ => self.fail(DownloadError::OutOfTurn, progress),
            },
        }
    }
}

/// The temporary file is promoted only after the whole body was received
/// with the checksum reported, where one was reported.
pub proof fn lemma_promotion(run: DownloadView, event: EventView, p: DownloadProgressView)
    requires
        run.advance(event, p).action is Promote,
    ensures
        run.stage == Stage::Body,
        event is End,
        run.expected_checksum() matches Some(expected) ==> expected == event->checksum,
        run.advance(event, p).run.stage == Stage::Rename,
        run.advance(event, p).progress == p,
{
}

/// A run ends exactly once, and the progress tells how: it is done when
/// the run has ended, and it holds an error if and only if the run
/// failed, in which case the temporary file is discarded.
pub proof fn lemma_end_of_run(run: DownloadView, event: EventView, p: DownloadProgressView)
    requires
        run.stage != Stage::Ended,
        !p.done,
        p.error is None,
    ensures
        run.advance(event, p).progress.done <==> run.advance(event, p).run.stage == Stage::Ended,
        run.advance(event, p).progress.error is Some <==> run.advance(event, p).action is Discard,
        run.advance(event, p).action is Discard ==> run.advance(event, p).run.stage == Stage::Ended,
        run.advance(event, p).run.stage == Stage::Ended ==> run.advance(event, p).action is Discard
            || (run.stage == Stage::Rename && run.advance(event, p).action is Finished),
{
}

/// A download that is cancelled while it receives the body ends at the
/// next chunk: the temporary file is discarded, nothing is promoted, and
/// the progress says that the job was cancelled.
pub proof fn lemma_cancelled_download_discards(
    run: DownloadView,
    arrived: Result<usize, Seq<char>>,
    p: DownloadProgressView,
)
    requires
        run.stage == Stage::Body,
    ensures
        run.advance(EventView::Chunk { cancelled: true, arrived }, p).action == ActionView::Discard,
        run.advance(EventView::Chunk { cancelled: true, arrived }, p).run.stage == Stage::Ended,
        run.advance(EventView::Chunk { cancelled: true, arrived }, p).progress.error == Some(
            ErrorView::Cancelled.text(),
        ),
        run.advance(EventView::Chunk { cancelled: true, arrived }, p).progress.done,
{
}

/// A download whose content has another checksum than the one reported
/// ends with an error of its own kind, and the temporary file is
/// discarded.
pub proof fn lemma_mismatch_discards(
    run: DownloadView,
    expected: Seq<char>,
    actual: Seq<char>,
    p: DownloadProgressView,
)
    requires
        run.stage == Stage::Body,
        run.expected_checksum() == Some(expected),
        expected != actual,
    ensures
        run.advance(EventView::End { checksum: actual }, p).action == ActionView::Discard,
        run.advance(EventView::End { checksum: actual }, p).run.stage == Stage::Ended,
        run.advance(EventView::End { checksum: actual }, p).progress.error == Some(
            (ErrorView::ChecksumMismatch { expected, actual }).text(),
        ),
{
}

/// Once a run has ended, nothing that is reported changes it or the
/// progress, and nothing is left to do.
pub proof fn lemma_ended_stays(run: DownloadView, event: EventView, p: DownloadProgressView)
    requires
        run.stage == Stage::Ended,
    ensures
        run.advance(event, p).run == run,
        run.advance(event, p).progress == p,
        run.advance(event, p).action == ActionView::Finished,
{
}

} // verus!

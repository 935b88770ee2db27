//! Realising an upload step by step.
//!
//! An [`UploadRun`] walks a plan: it names the next step, the caller
//! performs it on the remote store and reports what happened. Before every
//! step the run asks whether the job was cancelled. A step that failed ends
//! the run: no further step is named, the progress is done and holds the
//! text of the error, and what was created before stays.

use vstd::prelude::*;
use crate::plan::{
    file_count, folder_views, lemma_folder_before_contents, mkdir_step, parents_first,
    step_count, upload_step, FolderView, Plan,
};
use crate::progress::{UploadProgress, UploadProgressView};
use crate::text::{copy_opt, opt_text};

verus! {

/// How the chunks of an upload are sent again after a failure.
#[derive(Clone, Copy, Debug, PartialEq, Eq, Structural)]
pub struct RetryPolicy {
    /// How often a chunk is sent again before the upload fails.
    pub max_retries: u32,
    /// The shortest pause before a chunk is sent again, in seconds.
    pub min_sleep_secs: u64,
    /// The longest pause before a chunk is sent again, in seconds.
    pub max_sleep_secs: u64,
    /// Whether failures of single chunks are printed.
    pub print_chunk_errors: bool,
    /// Whether the progress of single chunks is printed.
    pub print_chunk_info: bool,
}

/// The policy of interactive uploads: persistent and silent.
pub fn retry_policy() -> (r: RetryPolicy)
    ensures
        r == (RetryPolicy {
            max_retries: 100000,
            min_sleep_secs: 1,
            max_sleep_secs: 60,
            print_chunk_errors: false,
            print_chunk_info: false,
        }),
{
    RetryPolicy {
        max_retries: 100000,
        min_sleep_secs: 1,
        max_sleep_secs: 60,
        print_chunk_errors: false,
        print_chunk_info: false,
    }
}

/// Why an upload ended before it was complete.
#[derive(Clone, Copy, Debug, PartialEq, Eq, Structural)]
pub enum UploadError {
    /// The job was cancelled.
    Cancelled,
    /// The remote store created a folder and returned no identifier.
    FolderWithoutId,
    /// An outcome was reported for a step that was not the next one.
    OutOfTurn,
}

impl UploadError {
    /// The text of this error.
    pub open spec fn text(self) -> Seq<char> {
        match self {
            UploadError::Cancelled => "Cancelled"@,
            UploadError::FolderWithoutId => "Folder created on drive has no id"@,
            UploadError::OutOfTurn => "Upload step reported out of turn"@,
        }
    }

    /// The text of this error.
    pub fn message(&self) -> (r: String)
        ensures
            r@ == self.text(),
    {
        match self {
            UploadError::Cancelled => String::from_str("Cancelled"),
            UploadError::FolderWithoutId => String::from_str("Folder created on drive has no id"),
            UploadError::OutOfTurn => String::from_str("Upload step reported out of turn"),
        }
    }
}

/// Whether an upload may begin: not once the job is cancelled.
pub fn check_cancelled(cancelled: bool) -> (r: Result<(), UploadError>)
    ensures
        r == if cancelled {
            Err(UploadError::Cancelled)
        } else {
            Ok(())
        },
{
    if cancelled {
        Err(UploadError::Cancelled)
    } else {
        Ok(())
    }
}

/// The next thing to do on the remote store.
#[derive(Clone, Debug, PartialEq, Eq)]
pub enum UploadStep {
    /// Create folder `folder` of the plan under the identifier `id`,
    /// inside `parent`, or inside the root where there is none.
    CreateFolder { folder: usize, id: String, name: String, parent: Option<String> },
    /// Upload file `file` of folder `folder` of the plan under the
    /// identifier `id`, into the remote folder `into`.
    UploadFile {
        folder: usize,
        file: usize,
        id: String,
        path: String,
        size: u64,
        relative_path: String,
        into: String,
    },
    /// Everything is uploaded.
    Finished,
    /// Nothing: the run has ended in a failure.
    Stopped,
}

/// The mathematical value of an [`UploadStep`].
pub enum StepView {
    CreateFolder { folder: nat, id: Seq<char>, name: Seq<char>, parent: Option<Seq<char>> },
    UploadFile {
        folder: nat,
        file: nat,
        id: Seq<char>,
        path: Seq<char>,
        size: u64,
        relative_path: Seq<char>,
        into: Seq<char>,
    },
    Finished,
    Stopped,
}

impl View for UploadStep {
    type V = StepView;

    open spec fn view(&self) -> StepView {
        match self {
            UploadStep::CreateFolder { folder, id, name, parent } => StepView::CreateFolder {
                folder: *folder as nat,
                id: id@,
                name: name@,
                parent: opt_text(*parent),
            },
            UploadStep::UploadFile {
                folder,
                file,
                id,
                path,
                size,
                relative_path,
                into,
            } => StepView::UploadFile {
                folder: *folder as nat,
                file: *file as nat,
                id: id@,
                path: path@,
                size: *size,
                relative_path: relative_path@,
                into: into@,
            },
            UploadStep::Finished => StepView::Finished,
            UploadStep::Stopped => StepView::Stopped,
        }
    }
}

/// Where a run stands.
pub enum Cursor {
    /// The next step creates this folder; past the last folder the run
    /// is finished.
    Folder(usize),
    /// The next step uploads this file of this folder, which the remote
    /// store created under the identifier given.
    File(usize, usize, String),
}

/// The mathematical value of a [`Cursor`].
pub enum CursorView {
    Folder(nat),
    File(nat, nat, Seq<char>),
}

impl View for Cursor {
    type V = CursorView;

    open spec fn view(&self) -> CursorView {
        match self {
            Cursor::Folder(f) => CursorView::Folder(*f as nat),
            Cursor::File(f, i, id) => CursorView::File(*f as nat, *i as nat, id@),
        }
    }
}

/// The mathematical value of an [`UploadRun`].
pub struct RunView {
    /// The plan that is realised.
    pub plan: Seq<FolderView>,
    /// The remote folder that receives the root of the tree; none for the
    /// root of the store.
    pub target: Option<Seq<char>>,
    /// The step that comes next, or came next when the run was stopped.
    pub at: CursorView,
    /// Whether the run has ended in a failure.
    pub stopped: bool,
}

/// A run and the progress after something was reported.
pub struct Turn {
    pub run: RunView,
    pub progress: UploadProgressView,
}

/// The progress with one more file done; the count stops at the largest
/// number it can hold.
pub open spec fn one_more_done(p: UploadProgressView) -> UploadProgressView {
    UploadProgressView {
        done_files: if p.done_files < u64::MAX {
            (p.done_files + 1) as u64
        } else {
            u64::MAX
        },
        ..p
    }
}

impl RunView {
    /// The cursor points into the plan.
    pub open spec fn wf(self) -> bool {
        &&& parents_first(self.plan)
        &&& match self.at {
            CursorView::Folder(f) => f <= self.plan.len(),
            CursorView::File(f, i, _) => f < self.plan.len() && i < self.plan[f as int].files.len(),
        }
    }

    /// The number of steps that were completed: the number of the next
    /// step.
    pub open spec fn position(self) -> nat {
        match self.at {
            CursorView::Folder(f) => mkdir_step(self.plan, f),
            CursorView::File(f, i, _) => upload_step(self.plan, f, i),
        }
    }

    /// Whether every step was completed.
    pub open spec fn finished(self) -> bool {
        !self.stopped && self.at == CursorView::Folder(self.plan.len())
    }

    /// Whether the run has ended, well or not.
    pub open spec fn ended(self) -> bool {
        self.stopped || self.finished()
    }

    /// The next step.
    pub open spec fn step(self) -> StepView {
        if self.stopped {
            StepView::Stopped
        } else {
            match self.at {
                CursorView::Folder(f) => if f >= self.plan.len() {
                    StepView::Finished
                } else {
                    StepView::CreateFolder {
                        folder: f,
                        id: self.plan[f as int].drive_id,
                        name: self.plan[f as int].name,
                        parent: match self.plan[f as int].parent {
                            Some(p) => Some(self.plan[p as int].drive_id),
                            None => self.target,
                        },
                    }
                },
                CursorView::File(f, i, created) => StepView::UploadFile {
                    folder: f,
                    file: i,
                    id: self.plan[f as int].files[i as int].drive_id,
                    path: self.plan[f as int].files[i as int].path,
                    size: self.plan[f as int].files[i as int].size,
                    relative_path: self.plan[f as int].files[i as int].relative_path,
                    into: created,
                },
            }
        }
    }

    /// The cursor after folder `f` was created under `id`: at its first
    /// file, or at the next folder where it has none.
    pub open spec fn after_folder(self, f: nat, id: Seq<char>) -> CursorView {
        if self.plan[f as int].files.len() > 0 {
            CursorView::File(f, 0, id)
        } else {
            CursorView::Folder(f + 1)
        }
    }

    /// The cursor after file `i` of folder `f` was uploaded: at the next
    /// file, or at the next folder after the last file.
    pub open spec fn after_file(self, f: nat, i: nat, id: Seq<char>) -> CursorView {
        if i + 1 < self.plan[f as int].files.len() {
            CursorView::File(f, i + 1, id)
        } else {
            CursorView::Folder(f + 1)
        }
    }

    /// Nothing changes.
    pub open spec fn keep(self, p: UploadProgressView) -> Turn {
        Turn { run: self, progress: p }
    }

    /// The run ends with the error `error`: it is stopped where it
    /// stands, and the progress is done and holds the text. A run that
    /// has ended before stays as it is, and so does the progress.
    pub open spec fn fail(self, error: Seq<char>, p: UploadProgressView) -> Turn {
        if self.ended() {
            self.keep(p)
        } else {
            Turn {
                run: RunView { stopped: true, ..self },
                progress: UploadProgressView { done: true, error: Some(error), ..p },
            }
        }
    }

    /// What asking for the next step leads to: a run that has completed
    /// every step marks the progress as done; a cancelled run ends; a file
    /// is announced in the progress.
    pub open spec fn next_step(self, cancelled: bool, p: UploadProgressView) -> Turn {
        if self.stopped {
            self.keep(p)
        } else if self.finished() {
            Turn { run: self, progress: UploadProgressView { done: true, error: None, ..p } }
        } else if cancelled {
            self.fail(UploadError::Cancelled.text(), p)
        } else {
            match self.step() {
                StepView::UploadFile { relative_path, size, .. } => Turn {
                    run: self,
                    progress: UploadProgressView {
                        current_file: Some(relative_path),
                        total_bytes: Some(size),
                        current_bytes: 0,
                        ..p
                    },
                },
                _ => self.keep(p),
            }
        }
    }

    /// What asking for the next step returns: the step, or the
    /// cancellation that ended the run.
    pub open spec fn next_result(self, cancelled: bool) -> Result<StepView, UploadError> {
        if !self.ended() && cancelled {
            Err(UploadError::Cancelled)
        } else {
            Ok(self.step())
        }
    }

    /// Whether the report of a created folder is accepted: it must be the
    /// folder of the next step, and it must have an identifier.
    pub open spec fn folder_result(self, id: Option<Seq<char>>) -> Result<(), UploadError> {
        if !(self.step() is CreateFolder) {
            Err(UploadError::OutOfTurn)
        } else if id is None {
            Err(UploadError::FolderWithoutId)
        } else {
            Ok(())
        }
    }

    /// What the report of a created folder leads to: the run goes on to
    /// the files of the folder, or it ends with the error.
    pub open spec fn folder_created(self, id: Option<Seq<char>>, p: UploadProgressView) -> Turn {
        match self.folder_result(id) {
            Ok(_) => Turn {
                run: RunView {
                    at: self.after_folder(self.step()->CreateFolder_folder, id->0),
                    ..self
                },
                progress: p,
            },
            Err(e) => self.fail(e.text(), p),
        }
    }

    /// Whether the report of an uploaded file is accepted: it must be the
    /// file of the next step.
    pub open spec fn file_result(self) -> Result<(), UploadError> {
        if self.step() is UploadFile {
            Ok(())
        } else {
            Err(UploadError::OutOfTurn)
        }
    }

    /// What the report of an uploaded file leads to: the file is counted
    /// and the run goes on, or it ends with the error.
    pub open spec fn file_uploaded(self, p: UploadProgressView) -> Turn {
        match self.step() {
            StepView::UploadFile { folder, file, into, .. } => Turn {
                run: RunView { at: self.after_file(folder, file, into), ..self },
                progress: one_more_done(p),
            },
            _ => self.fail(UploadError::OutOfTurn.text(), p),
        }
    }
}

/// The progress of an upload whose plan has `files` files: none of them
/// done yet.
pub open spec fn planned(progress: UploadProgressView, files: nat) -> UploadProgressView {
    UploadProgressView { total_files: Some(files as u64), done_files: 0, ..progress }
}

/// The upload of a planned tree in progress.
pub struct UploadRun {
    plan: Plan,
    target: Option<String>,
    at: Cursor,
    stopped: bool,
}

impl View for UploadRun {
    type V = RunView;

    closed spec fn view(&self) -> RunView {
        RunView {
            plan: self.plan@,
            target: opt_text(self.target),
            at: self.at@,
            stopped: self.stopped,
        }
    }
}

impl UploadRun {
    #[verifier::type_invariant]
    spec fn inv(self) -> bool {
        match self.at {
            Cursor::Folder(f) => f <= self.plan@.len(),
            Cursor::File(f, i, _) => f < self.plan@.len() && i < self.plan@[f as int].files.len(),
        }
    }

    /// A run at the start of `plan`, uploading into the remote folder
    /// `target`, or into the root. The progress shows the number of files
    /// of the plan and none of them done.
    pub fn new(plan: Plan, target: Option<String>, progress: &mut UploadProgress) -> (r: UploadRun)
        ensures
            r@ == (RunView {
                plan: plan@,
                target: opt_text(target),
                at: CursorView::Folder(0),
                stopped: false,
            }),
            r@.wf(),
            r@.position() == 0,
            final(progress)@ == planned(old(progress)@, file_count(plan@)),
    {
        let files = plan.file_count();
        progress.total_files = Some(files as u64);
        progress.done_files = 0;
        UploadRun { plan, target, at: Cursor::Folder(0), stopped: false }
    }

    /// Ends the run with an error, unless it has ended before.
    fn stop(&mut self, error: String, progress: &mut UploadProgress)
        ensures
            final(self)@ == old(self)@.fail(error@, old(progress)@).run,
            final(progress)@ == old(self)@.fail(error@, old(progress)@).progress,
            final(self)@.wf() == old(self)@.wf(),
    {
        proof {
            use_type_invariant(&*self);
        }
        if !self.is_ended() {
            self.stopped = true;
            progress.done = true;
            progress.error = Some(error);
        }
    }

    /// Takes the failure of the step that was named last, with the text
    /// of its error. The run ends where it stands: no further step is
    /// named, nothing that was created is undone, and the progress is done
    /// and holds the text. A run that has ended before stays as it is.
    pub fn fail(&mut self, error: String, progress: &mut UploadProgress)
        ensures
            final(self)@ == old(self)@.fail(error@, old(progress)@).run,
            final(progress)@ == old(self)@.fail(error@, old(progress)@).progress,
    {
        self.stop(error, progress);
    }

    /// Names the next step. A run that has completed every step marks the
    /// progress as done. A job that was cancelled before the step ends
    /// the run, as a failure does. For a file the progress announces it:
    /// its path for display, its size, and nothing read yet.
    pub fn next_step(&mut self, cancelled: bool, progress: &mut UploadProgress) -> (r: Result<
        UploadStep,
        UploadError,
    >)
        ensures
            old(self)@.wf(),
            final(self)@ == old(self)@.next_step(cancelled, old(progress)@).run,
            final(progress)@ == old(self)@.next_step(cancelled, old(progress)@).progress,
            step_result_view(r) == old(self)@.next_result(cancelled),
    {
        proof {
            use_type_invariant(&*self);
        }
        let folders = self.plan.folders();
        assert(folder_views(folders@).len() == folders.len());
        if self.stopped {
            return Ok(UploadStep::Stopped);
        }
        match &self.at {
            Cursor::Folder(f) => {
                if *f >= folders.len() {
                    progress.done = true;
                    progress.error = None;
                    return Ok(UploadStep::Finished);
                }
                if cancelled {
                    self.stop(UploadError::Cancelled.message(), progress);
                    return Err(UploadError::Cancelled);
                }
                let folder = &folders[*f];
                assert(self@.plan[*f as int] == folder@);
                let parent = match folder.parent {
                    Some(p) => {
                        assert(p < *f);
                        assert(self@.plan[p as int] == folders[p as int]@);
                        Some(folders[p].drive_id.clone())
                    },
                    None => copy_opt(&self.target),
                };
                Ok(
                    UploadStep::CreateFolder {
                        folder: *f,
                        id: folder.drive_id.clone(),
                        name: folder.name.clone(),
                        parent,
                    },
                )
            },
            Cursor::File(f, i, created) => {
                if cancelled {
                    self.stop(UploadError::Cancelled.message(), progress);
                    return Err(UploadError::Cancelled);
                }
                let folder = &folders[*f];
                assert(self@.plan[*f as int] == folder@);
                let file = &folder.files[*i];
                assert(self@.plan[*f as int].files[*i as int] == file@);
                progress.begin_file(file.relative_path.clone(), file.size);
                Ok(
                    UploadStep::UploadFile {
                        folder: *f,
                        file: *i,
                        id: file.drive_id.clone(),
                        path: file.path.clone(),
                        size: file.size,
                        relative_path: file.relative_path.clone(),
                        into: created.clone(),
                    },
                )
            },
        }
    }

    /// Records that the remote store created the folder of the last step
    /// and returned the identifier `id`. The files of the folder go into
    /// the folder of that identifier. A folder without identifier, or a
    /// report that the run did not wait for, ends the run.
    pub fn folder_created(&mut self, id: Option<String>, progress: &mut UploadProgress) -> (r:
        Result<(), UploadError>)
        ensures
            final(self)@ == old(self)@.folder_created(opt_text(id), old(progress)@).run,
            final(progress)@ == old(self)@.folder_created(opt_text(id), old(progress)@).progress,
            r == old(self)@.folder_result(opt_text(id)),
            final(self)@.wf(),
    {
        proof {
            use_type_invariant(&*self);
        }
        let folders = self.plan.folders();
        assert(folder_views(folders@).len() == folders.len());
        let next = match &self.at {
            Cursor::Folder(f) => if !self.stopped && *f < folders.len() {
                Some(*f)
            } else {
                None
            },
            Cursor::File(_, _, _) => None,
        };
        let f = match next {
            Some(f) => f,
            None => {
                self.stop(UploadError::OutOfTurn.message(), progress);
                return Err(UploadError::OutOfTurn);
            },
        };
        let created = match id {
            Some(created) => created,
            None => {
                self.stop(UploadError::FolderWithoutId.message(), progress);
                return Err(UploadError::FolderWithoutId);
            },
        };
        assert(self@.plan[f as int] == folders[f as int]@);
        assert(self@.plan[f as int].files.len() == folders[f as int].files.len());
        if folders[f].files.len() > 0 {
            self.at = Cursor::File(f, 0, created);
        } else {
            self.at = Cursor::Folder(f + 1);
        }
        Ok(())
    }

    /// Records that the file of the last step was uploaded, and counts it
    /// in the progress. A report that the run did not wait for ends the
    /// run.
    pub fn file_uploaded(&mut self, progress: &mut UploadProgress) -> (r: Result<(), UploadError>)
        ensures
            final(self)@ == old(self)@.file_uploaded(old(progress)@).run,
            final(progress)@ == old(self)@.file_uploaded(old(progress)@).progress,
            r == old(self)@.file_result(),
            final(self)@.wf(),
    {
        proof {
            use_type_invariant(&*self);
        }
        let folders = self.plan.folders();
        let next = match &self.at {
            Cursor::File(f, i, created) => if !self.stopped {
                Some((*f, *i, created.clone()))
            } else {
                None
            },
            Cursor::Folder(_) => None,
        };
        let (f, i, created) = match next {
            Some(found) => found,
            None => {
                self.stop(UploadError::OutOfTurn.message(), progress);
                return Err(UploadError::OutOfTurn);
            },
        };
        assert(folder_views(folders@).len() == folders.len());
        assert(self@.plan[f as int] == folders[f as int]@);
        assert(self@.plan[f as int].files.len() == folders[f as int].files.len());
        if i + 1 < folders[f].files.len() {
            self.at = Cursor::File(f, i + 1, created);
        } else {
            self.at = Cursor::Folder(f + 1);
        }
        progress.file_done();
        Ok(())
    }

    /// Whether every step was completed.
    pub fn is_finished(&self) -> (r: bool)
        ensures
            r == self@.finished(),
    {
        let folders = self.plan.folders();
        match &self.at {
            Cursor::Folder(f) => !self.stopped && *f == folders.len(),
            Cursor::File(_, _, _) => false,
        }
    }

    /// Whether the run has ended, well or not.
    pub fn is_ended(&self) -> (r: bool)
        ensures
            r == self@.ended(),
    {
        self.stopped || self.is_finished()
    }
}

/// The view of what [`UploadRun::next_step`] returns.
pub open spec fn step_result_view(r: Result<UploadStep, UploadError>) -> Result<
    StepView,
    UploadError,
> {
    match r {
        Ok(step) => Ok(step@),
        Err(e) => Err(e),
    }
}

/// A run takes the steps in their order: the step it names has the number
/// of the steps completed. So when a folder is created, the folder that
/// holds it was created before, and when a file is uploaded, its folder
/// was.
pub proof fn lemma_run_in_order(run: RunView)
    requires
        run.wf(),
    ensures
        run.step() matches StepView::CreateFolder { folder, .. } ==> run.position() == mkdir_step(
            run.plan,
            folder,
        ) && (run.plan[folder as int].parent matches Some(p) ==> mkdir_step(run.plan, p)
            < run.position()),
        run.step() matches StepView::UploadFile { folder, file, .. } ==> run.position()
            == upload_step(run.plan, folder, file) && mkdir_step(run.plan, folder) < run.position(),
        run.step() is Finished ==> run.position() == step_count(run.plan),
{
    match run.at {
        CursorView::Folder(f) => {
            if f < run.plan.len() {
                lemma_folder_before_contents(run.plan, f, 0);
            }
        },
        CursorView::File(f, i, _) => {},
    }
}

/// Every report that is accepted completes one step, and no other report
/// completes any: the number of steps completed goes up by one or stays.
pub proof fn lemma_reports_count_steps(run: RunView, id: Option<Seq<char>>, p: UploadProgressView)
    requires
        run.wf(),
    ensures
        run.folder_created(id, p).run.position() == if run.folder_result(id) is Ok {
            run.position() + 1
        } else {
            run.position()
        },
        run.file_uploaded(p).run.position() == if run.file_result() is Ok {
            run.position() + 1
        } else {
            run.position()
        },
        run.folder_created(id, p).run.wf(),
        run.file_uploaded(p).run.wf(),
{
}

/// A step that failed aborts the rest of the plan. Once the failure is
/// taken, the run names no step any more, whether or not the job is
/// cancelled; nothing that was completed is taken back; the progress is
/// done, holds the text of the error, and counts the files that were
/// uploaded before; and no later report changes the run or the progress.
pub proof fn lemma_failure_aborts(
    run: RunView,
    error: Seq<char>,
    p: UploadProgressView,
    cancelled: bool,
    id: Option<Seq<char>>,
    later: Seq<char>,
)
    requires
        !run.ended(),
    ensures
        ({
            let failed = run.fail(error, p);
            &&& failed.run.stopped
            &&& failed.run.step() is Stopped
            &&& failed.run.position() == run.position()
            &&& failed.run.plan == run.plan
            &&& failed.progress.done
            &&& failed.progress.error == Some(error)
            &&& failed.progress.done_files == p.done_files
            &&& failed.run.next_result(cancelled) == Ok::<StepView, UploadError>(StepView::Stopped)
            &&& failed.run.next_step(cancelled, failed.progress) == failed
            &&& failed.run.folder_created(id, failed.progress) == failed
            &&& failed.run.file_uploaded(failed.progress) == failed
            &&& failed.run.fail(later, failed.progress) == failed
        }),
{
}

/// A run ends in one of two ways, and the progress tells which: a run
/// that has completed every step is done without an error, and a run
/// that was cancelled before a step is done with the error of a
/// cancellation and names no step.
pub proof fn lemma_end_of_upload(run: RunView, p: UploadProgressView)
    ensures
        run.finished() ==> run.next_step(false, p).progress.done && run.next_step(
            false,
            p,
        ).progress.error is None && run.next_result(false) == Ok::<StepView, UploadError>(
            StepView::Finished,
        ),
        !run.ended() ==> run.next_step(true, p).run.stopped && run.next_step(true, p).progress.done
            && run.next_step(true, p).progress.error == Some(UploadError::Cancelled.text())
            && run.next_result(true) == Err::<StepView, UploadError>(UploadError::Cancelled),
        !run.ended() ==> !run.next_step(false, p).run.ended() && run.next_step(
            false,
            p,
        ).progress.done == p.done,
{
}

} // verus!

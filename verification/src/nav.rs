//! The navigation state: the folder shown, its rows, the interaction mode
//! and the transfer jobs.
//!
//! Every change of the state is a method of [`App`] whose contract gives
//! the new state as a function of the old one. Work on the remote store or
//! the file system is never done here: a method that needs it returns a
//! [`Command`], and the caller hands the outcome to the method that the
//! command names.

use vstd::prelude::*;
use crate::listing::{
    file_views, is_listing_of, item_views, listing_ordered, DriveItem, ItemView, Listing,
    RemoteFile,
};
use crate::picker::{LocalDir, PickerView, UploadPicker};
use crate::progress::{
    fresh_download, fresh_upload, DownloadProgress, DownloadProgressView, UploadProgress,
    UploadProgressView,
};
use crate::text::{copy_opt, join2, opt_text};

verus! {

/// What the keys mean at the moment.
#[derive(Clone, Copy, Debug, PartialEq, Eq, Structural)]
pub enum InputMode {
    /// Browsing the listing.
    Normal,
    /// Typing the directory to download into.
    DownloadDestination,
    /// Choosing a local path to upload.
    UploadPicker,
    /// Asked whether to delete the pending row.
    DeleteConfirm,
    /// Asked whether to quit while transfers run.
    QuitConfirm,
}

/// A folder on the way from the root to the folder shown.
#[derive(Clone, Debug, PartialEq, Eq)]
pub struct FolderState {
    /// The folder's identifier; none for the root.
    pub id: Option<String>,
    pub name: String,
}

/// The mathematical value of a [`FolderState`].
pub struct FrameView {
    pub id: Option<Seq<char>>,
    pub name: Seq<char>,
}

impl View for FolderState {
    type V = FrameView;

    open spec fn view(&self) -> FrameView {
        FrameView { id: opt_text(self.id), name: self.name@ }
    }
}

/// The views of a stack of folders.
pub open spec fn frame_views(frames: Seq<FolderState>) -> Seq<FrameView> {
    frames.map_values(|f: FolderState| f@)
}

/// A running upload as the interaction sees it: the last progress it
/// reported and whether it was asked to stop.
#[derive(Clone, Debug, PartialEq, Eq)]
pub struct UploadJob {
    pub progress: UploadProgress,
    pub cancel: bool,
}

/// The mathematical value of an [`UploadJob`].
pub struct UploadJobView {
    pub progress: UploadProgressView,
    pub cancel: bool,
}

impl View for UploadJob {
    type V = UploadJobView;

    open spec fn view(&self) -> UploadJobView {
        UploadJobView { progress: self.progress@, cancel: self.cancel }
    }
}

/// A running download as the interaction sees it.
#[derive(Clone, Debug, PartialEq, Eq)]
pub struct DownloadJob {
    pub progress: DownloadProgress,
    pub cancel: bool,
}

/// The mathematical value of a [`DownloadJob`].
pub struct DownloadJobView {
    pub progress: DownloadProgressView,
    pub cancel: bool,
}

impl View for DownloadJob {
    type V = DownloadJobView;

    open spec fn view(&self) -> DownloadJobView {
        DownloadJobView { progress: self.progress@, cancel: self.cancel }
    }
}

/// Which listing to fetch.
#[derive(Clone, Debug, PartialEq, Eq)]
pub enum ListQuery {
    /// The children of a folder.
    FilesInFolder { folder_id: String },
    /// The root, without what is in the trash.
    RootNotTrashed,
}

/// The mathematical value of a [`ListQuery`].
pub enum ListQueryView {
    FilesInFolder { folder_id: Seq<char> },
    RootNotTrashed,
}

impl View for ListQuery {
    type V = ListQueryView;

    open spec fn view(&self) -> ListQueryView {
        match self {
            ListQuery::FilesInFolder { folder_id } => ListQueryView::FilesInFolder {
                folder_id: folder_id@,
            },
            ListQuery::RootNotTrashed => ListQueryView::RootNotTrashed,
        }
    }
}

/// Work that the caller does for the state machine.
#[derive(Clone, Debug, PartialEq, Eq)]
pub enum Command {
    /// Nothing to do.
    Nothing,
    /// Leave the interaction loop.
    Quit,
    /// Fetch the listing that [`App::list_query`] names and hand it to
    /// [`App::reload`], or the failure to [`App::reload_failed`].
    Reload,
    /// Read the working directory and hand it to
    /// [`App::start_upload_picker`].
    OpenPicker,
    /// Read the local directory `path` and hand it to
    /// [`App::picker_entered`].
    ReadDir { path: String },
    /// Delete the remote item and hand the outcome to
    /// [`App::delete_finished`]. `recursive` is set for a folder.
    Delete { file_id: String, recursive: bool },
    /// Start the worker of a download.
    Download { file_id: String, destination: Option<String> },
    /// Start the worker of an upload of the local `path` into the remote
    /// folder `parent`, or into the root.
    Upload { path: String, parent: Option<String> },
}

/// The mathematical value of a [`Command`].
pub enum CommandView {
    Nothing,
    Quit,
    Reload,
    OpenPicker,
    ReadDir { path: Seq<char> },
    Delete { file_id: Seq<char>, recursive: bool },
    Download { file_id: Seq<char>, destination: Option<Seq<char>> },
    Upload { path: Seq<char>, parent: Option<Seq<char>> },
}

impl View for Command {
    type V = CommandView;

    open spec fn view(&self) -> CommandView {
        match self {
            Command::Nothing => CommandView::Nothing,
            Command::Quit => CommandView::Quit,
            Command::Reload => CommandView::Reload,
            Command::OpenPicker => CommandView::OpenPicker,
            Command::ReadDir { path } => CommandView::ReadDir { path: path@ },
            Command::Delete { file_id, recursive } => CommandView::Delete {
                file_id: file_id@,
                recursive: *recursive,
            },
            Command::Download { file_id, destination } => CommandView::Download {
                file_id: file_id@,
                destination: opt_text(*destination),
            },
            Command::Upload { path, parent } => CommandView::Upload {
                path: path@,
                parent: opt_text(*parent),
            },
        }
    }
}

/// The state of the interaction.
pub struct App {
    pub(crate) listing: Listing,
    pub(crate) folder_stack: Vec<FolderState>,
    pub(crate) current_folder_id: Option<String>,
    pub(crate) current_folder_name: String,
    pub(crate) status: String,
    pub(crate) input_mode: InputMode,
    pub(crate) input: String,
    pub(crate) download_job: Option<DownloadJob>,
    pub(crate) upload_picker: Option<UploadPicker>,
    pub(crate) upload_job: Option<UploadJob>,
    pub(crate) blink_on: bool,
    pub(crate) last_blink: u64,
    pub(crate) pending_delete: Option<DriveItem>,
    pub(crate) exit_requested: bool,
}

/// The mathematical value of an [`App`].
pub struct AppView {
    /// The rows shown.
    pub items: Seq<ItemView>,
    /// The index of the highlighted row.
    pub selected: nat,
    /// The folders from the root to the parent of the folder shown.
    pub folder_stack: Seq<FrameView>,
    /// The folder shown; none for the root.
    pub current_folder_id: Option<Seq<char>>,
    pub current_folder_name: Seq<char>,
    /// The status text.
    pub status: Seq<char>,
    pub input_mode: InputMode,
    /// The text typed so far.
    pub input: Seq<char>,
    pub download_job: Option<DownloadJobView>,
    pub upload_picker: Option<PickerView>,
    pub upload_job: Option<UploadJobView>,
    /// The phase of the blinking hint.
    pub blink_on: bool,
    /// The clock reading, in milliseconds, at which the hint last changed.
    pub last_blink: u64,
    /// The row that a confirmed delete would remove.
    pub pending_delete: Option<ItemView>,
    pub exit_requested: bool,
}

/// The view of an optional upload job.
pub open spec fn upload_job_view(j: Option<UploadJob>) -> Option<UploadJobView> {
    match j {
        Some(j) => Some(j@),
        None => None,
    }
}

/// The view of an optional download job.
pub open spec fn download_job_view(j: Option<DownloadJob>) -> Option<DownloadJobView> {
    match j {
        Some(j) => Some(j@),
        None => None,
    }
}

/// The view of an optional local browser.
pub open spec fn picker_view(p: Option<UploadPicker>) -> Option<PickerView> {
    match p {
        Some(p) => Some(p@),
        None => None,
    }
}

/// The view of an optional row.
pub open spec fn opt_item_view(d: Option<DriveItem>) -> Option<ItemView> {
    match d {
        Some(d) => Some(d@),
        None => None,
    }
}

/// The number of milliseconds after which the blinking hint changes.
pub const BLINK_INTERVAL_MS: u64 = 500;

/// The number of rows that one listing asks for at most.
pub const MAX_LISTED_FILES: usize = 1000;

impl AppView {
    /// The state at the start: at the root, nothing listed yet.
    pub open spec fn initial(now_ms: u64) -> AppView {
        AppView {
            items: Seq::empty(),
            selected: 0,
            folder_stack: Seq::empty(),
            current_folder_id: None,
            current_folder_name: "root"@,
            status: "Ready"@,
            input_mode: InputMode::Normal,
            input: Seq::empty(),
            download_job: None,
            upload_picker: None,
            upload_job: None,
            blink_on: true,
            last_blink: now_ms,
            pending_delete: None,
            exit_requested: false,
        }
    }

    /// The highlighted row is in range, or no row is listed and it is 0.
    pub open spec fn wf(self) -> bool {
        self.selected == 0 || self.selected < self.items.len()
    }

    /// This state with another status text.
    pub open spec fn with_status(self, status: Seq<char>) -> AppView {
        AppView { status, ..self }
    }

    /// Whether no transfer runs.
    pub open spec fn can_quit(self) -> bool {
        self.upload_job is None && self.download_job is None
    }

    /// Whether a transfer runs.
    pub open spec fn has_active_transfer(self) -> bool {
        !self.can_quit()
    }

    /// Whether the interaction loop is to end: exit was requested and no
    /// transfer runs any more.
    pub open spec fn should_exit(self) -> bool {
        self.exit_requested && self.can_quit()
    }

    /// Entering a mode clears the text typed before.
    pub open spec fn start_input(self, mode: InputMode, status: Seq<char>) -> AppView {
        AppView { input_mode: mode, input: Seq::empty(), status, ..self }
    }

    /// Back to browsing: the typed text and the local browser are dropped.
    pub open spec fn cancel_input(self, status: Seq<char>) -> AppView {
        AppView {
            input_mode: InputMode::Normal,
            input: Seq::empty(),
            status,
            upload_picker: None,
            ..self
        }
    }

    /// Asking whether to quit.
    pub open spec fn start_quit_confirm(self) -> AppView {
        AppView { input_mode: InputMode::QuitConfirm, status: "Confirm quit"@, ..self }
    }

    /// Exit is requested and every running transfer is asked to stop.
    pub open spec fn request_exit(self) -> AppView {
        AppView {
            exit_requested: true,
            upload_job: match self.upload_job {
                Some(j) => Some(UploadJobView { cancel: true, ..j }),
                None => None,
            },
            download_job: match self.download_job {
                Some(j) => Some(DownloadJobView { cancel: true, ..j }),
                None => None,
            },
            ..self
        }
    }

    /// The highlighted row, if there is one.
    pub open spec fn highlighted(self) -> Option<ItemView> {
        if self.selected < self.items.len() {
            Some(self.items[self.selected as int])
        } else {
            None
        }
    }

    /// Asking whether to delete the highlighted row. The parent marker and
    /// a row without identifier cannot be deleted: the state stays as it
    /// is but for the status text.
    pub open spec fn start_delete_confirm(self) -> AppView {
        match self.highlighted() {
            None => self.with_status("No selection"@),
            Some(item) => if item.is_parent {
                self.with_status("Cannot delete parent entry"@)
            } else if item.id.len() == 0 {
                self.with_status("Missing file id"@)
            } else {
                AppView {
                    pending_delete: Some(item),
                    input_mode: InputMode::DeleteConfirm,
                    status: "Confirm delete"@,
                    ..self
                }
            },
        }
    }

    /// The highlight moved one row down, from the last row to the first.
    pub open spec fn select_next(self) -> AppView {
        if self.items.len() == 0 {
            self
        } else if self.selected + 1 >= self.items.len() {
            AppView { selected: 0, ..self }
        } else {
            AppView { selected: self.selected + 1, ..self }
        }
    }

    /// The highlight moved one row up, from the first row to the last.
    pub open spec fn select_previous(self) -> AppView {
        if self.items.len() == 0 {
            self
        } else if self.selected == 0 {
            AppView { selected: (self.items.len() - 1) as nat, ..self }
        } else {
            AppView { selected: (self.selected - 1) as nat, ..self }
        }
    }

    /// The listing to fetch for the folder shown.
    pub open spec fn list_query(self) -> ListQueryView {
        match self.current_folder_id {
            Some(folder_id) => ListQueryView::FilesInFolder { folder_id },
            None => ListQueryView::RootNotTrashed,
        }
    }

    /// The state after a listing that could not be fetched: as before,
    /// but for the status text.
    pub open spec fn reload_failed(self, error: Seq<char>) -> AppView {
        self.with_status("Error: "@ + error)
    }

    /// The state after a reload that produced the rows `items`: the first
    /// row highlighted, the status text reset.
    pub open spec fn reloaded(self, items: Seq<ItemView>) -> AppView {
        AppView { items, selected: 0, status: "Ready"@, ..self }
    }

    /// One folder up: the top of the stack becomes the folder shown. At the
    /// root nothing changes but the status text.
    pub open spec fn go_back(self) -> AppView {
        if self.folder_stack.len() == 0 {
            self.with_status("Already at root"@)
        } else {
            AppView {
                folder_stack: self.folder_stack.drop_last(),
                current_folder_id: self.folder_stack.last().id,
                current_folder_name: self.folder_stack.last().name,
                ..self
            }
        }
    }

    /// Whether going back leads to another folder, whose listing is then
    /// to be fetched.
    pub open spec fn go_back_reloads(self) -> bool {
        self.folder_stack.len() > 0
    }

    /// Whether opening the highlighted row enters a folder.
    pub open spec fn opens_folder(self) -> bool {
        match self.highlighted() {
            Some(item) => item.is_folder && !item.is_parent && item.id.len() > 0,
            None => false,
        }
    }

    /// Opening the highlighted row: a folder is entered, the folder shown
    /// before going onto the stack; the parent marker leads one folder
    /// up; anything else only changes the status text.
    pub open spec fn open_selected(self) -> AppView {
        match self.highlighted() {
            None => self.with_status("No selection"@),
            Some(item) => if !item.is_folder {
                self.with_status("Not a folder"@)
            } else if item.is_parent {
                self.go_back()
            } else if item.id.len() == 0 {
                self.with_status("Missing folder id"@)
            } else {
                AppView {
                    folder_stack: self.folder_stack.push(
                        FrameView { id: self.current_folder_id, name: self.current_folder_name },
                    ),
                    current_folder_id: Some(item.id),
                    current_folder_name: item.name,
                    ..self
                }
            },
        }
    }

    /// Whether opening the highlighted row leads to another folder, whose
    /// listing is then to be fetched.
    pub open spec fn open_reloads(self) -> bool {
        match self.highlighted() {
            Some(item) => item.is_folder && (if item.is_parent {
                self.go_back_reloads()
            } else {
                item.id.len() > 0
            }),
            None => false,
        }
    }
}

/// Why a transfer was not started.
#[derive(Clone, Copy, Debug, PartialEq, Eq, Structural)]
pub enum StartError {
    /// A transfer of the same direction runs already.
    AlreadyRunning,
    /// No row is highlighted.
    NoSelection,
    /// The highlighted row is a folder.
    IsFolder,
    /// The highlighted row has no identifier.
    MissingId,
}

/// What a tick found of the upload.
#[derive(Clone, Copy, Debug, PartialEq, Eq, Structural)]
pub struct TickReport {
    /// The upload ended in this tick: its worker is to be joined.
    pub upload_ended: bool,
    /// The upload ended well: the listing is to be fetched anew and handed
    /// to [`App::reload`], or the failure to [`App::refresh_failed`],
    /// before [`App::tick_download`] is called.
    pub reload: bool,
}

impl AppView {
    /// The local browser opened on `picker`.
    pub open spec fn picker_opened(self, picker: PickerView) -> AppView {
        AppView {
            upload_picker: Some(picker),
            input_mode: InputMode::UploadPicker,
            status: "Upload picker"@,
            ..self
        }
    }

    /// The outcome of a delete shown in the status text.
    pub open spec fn delete_finished(self, outcome: Result<(), Seq<char>>) -> AppView {
        match outcome {
            Ok(_) => self.with_status("Delete completed"@),
            Err(e) => self.with_status("Delete failed: "@ + e),
        }
    }

    /// Why a download of the highlighted row cannot start, if it cannot.
    pub open spec fn download_refusal(self) -> Option<StartError> {
        if self.download_job is Some {
            Some(StartError::AlreadyRunning)
        } else {
            match self.highlighted() {
                None => Some(StartError::NoSelection),
                Some(item) => if item.is_folder {
                    Some(StartError::IsFolder)
                } else if item.id.len() == 0 {
                    Some(StartError::MissingId)
                } else {
                    None
                },
            }
        }
    }

    /// The state after a request to download the highlighted row: a new
    /// job where nothing stands against it, else only the status text
    /// changes.
    pub open spec fn download_selected(self) -> AppView {
        match self.download_refusal() {
            Some(StartError::AlreadyRunning) => self.with_status("Download already in progress"@),
            Some(StartError::NoSelection) => self.with_status("No selection"@),
            Some(StartError::IsFolder) => self.with_status("Select a file to download"@),
            Some(StartError::MissingId) => self.with_status("Missing file id"@),
            None => AppView {
                download_job: Some(
                    DownloadJobView {
                        progress: fresh_download(self.highlighted()->0.name),
                        cancel: false,
                    },
                ),
                status: "Download started"@,
                ..self
            },
        }
    }

    /// The state after a request to upload: a new job unless one runs,
    /// else only the status text changes.
    pub open spec fn start_upload_job(self) -> AppView {
        if self.upload_job is Some {
            self.with_status("Upload already in progress"@)
        } else {
            AppView {
                upload_job: Some(UploadJobView { progress: fresh_upload(), cancel: false }),
                status: "Upload started"@,
                ..self
            }
        }
    }

    /// The blinking hint changes once the interval has passed.
    pub open spec fn blink(self, now_ms: u64) -> AppView {
        if now_ms >= self.last_blink && now_ms - self.last_blink >= BLINK_INTERVAL_MS {
            AppView { blink_on: !self.blink_on, last_blink: now_ms, ..self }
        } else {
            self
        }
    }

    /// The running upload shows the progress last reported.
    pub open spec fn observe_upload(self, update: Option<UploadProgressView>) -> AppView {
        match (self.upload_job, update) {
            (Some(job), Some(progress)) => AppView {
                upload_job: Some(UploadJobView { progress, ..job }),
                ..self
            },
            _ => self,
        }
    }

    /// The running download shows the progress last reported.
    pub open spec fn observe_download(self, update: Option<DownloadProgressView>) -> AppView {
        match (self.download_job, update) {
            (Some(job), Some(progress)) => AppView {
                download_job: Some(DownloadJobView { progress, ..job }),
                ..self
            },
            _ => self,
        }
    }

    /// Whether the upload has reported its end.
    pub open spec fn upload_ended(self) -> bool {
        self.upload_job matches Some(job) && job.progress.done
    }

    /// Whether the upload has reported its end without an error.
    pub open spec fn upload_succeeded(self) -> bool {
        self.upload_job matches Some(job) && job.progress.done && job.progress.error is None
    }

    /// Whether the download has reported its end.
    pub open spec fn download_ended(self) -> bool {
        self.download_job matches Some(job) && job.progress.done
    }

    /// An upload that has ended leaves its slot and its outcome in the
    /// status text.
    pub open spec fn reconcile_upload(self) -> AppView {
        match self.upload_job {
            Some(job) => if job.progress.done {
                AppView {
                    upload_job: None,
                    status: match job.progress.error {
                        Some(e) => "Upload failed: "@ + e,
                        None => "Upload completed"@,
                    },
                    ..self
                }
            } else {
                self
            },
            None => self,
        }
    }

    /// A download that has ended leaves its slot and its outcome in the
    /// status text.
    pub open spec fn reconcile_download(self) -> AppView {
        match self.download_job {
            Some(job) => if job.progress.done {
                AppView {
                    download_job: None,
                    status: match job.progress.error {
                        Some(e) => "Download failed: "@ + e,
                        None => "Download completed"@,
                    },
                    ..self
                }
            } else {
                self
            },
            None => self,
        }
    }

    /// The first half of a tick: the hint blinks, the upload shows what
    /// was last reported, and an upload that has ended is reconciled.
    pub open spec fn tick(self, now_ms: u64, upload: Option<UploadProgressView>) -> AppView {
        self.blink(now_ms).observe_upload(upload).reconcile_upload()
    }

    /// What the first half of a tick reports.
    pub open spec fn tick_report(self, now_ms: u64, upload: Option<UploadProgressView>) -> TickReport {
        let seen = self.blink(now_ms).observe_upload(upload);
        TickReport { upload_ended: seen.upload_ended(), reload: seen.upload_succeeded() }
    }

    /// The second half of a tick: the download shows what was last
    /// reported, and a download that has ended is reconciled.
    pub open spec fn tick_download(self, download: Option<DownloadProgressView>) -> AppView {
        self.observe_download(download).reconcile_download()
    }
}

/// The view of an optional progress record of an upload.
pub open spec fn opt_upload_view(p: Option<UploadProgress>) -> Option<UploadProgressView> {
    match p {
        Some(p) => Some(p@),
        None => None,
    }
}

/// The view of an optional progress record of a download.
pub open spec fn opt_download_view(p: Option<DownloadProgress>) -> Option<DownloadProgressView> {
    match p {
        Some(p) => Some(p@),
        None => None,
    }
}

/// The text of the failure of an outcome.
pub open spec fn outcome_view(outcome: Result<(), String>) -> Result<(), Seq<char>> {
    match outcome {
        Ok(_) => Ok(()),
        Err(e) => Err(e@),
    }
}

impl App {
    /// The mathematical value of this state.
    pub open(crate) spec fn view(&self) -> AppView {
        AppView {
            items: self.listing@.items,
            selected: self.listing@.selected,
            folder_stack: frame_views(self.folder_stack@),
            current_folder_id: opt_text(self.current_folder_id),
            current_folder_name: self.current_folder_name@,
            status: self.status@,
            input_mode: self.input_mode,
            input: self.input@,
            download_job: download_job_view(self.download_job),
            upload_picker: picker_view(self.upload_picker),
            upload_job: upload_job_view(self.upload_job),
            blink_on: self.blink_on,
            last_blink: self.last_blink,
            pending_delete: opt_item_view(self.pending_delete),
            exit_requested: self.exit_requested,
        }
    }

    /// The state at the start: at the root, nothing listed yet. `now_ms`
    /// is the reading of a clock that never goes back, in milliseconds.
    pub fn new(now_ms: u64) -> (r: App)
        ensures
            r@ == AppView::initial(now_ms),
    {
        let r = App {
            listing: Listing::new(),
            folder_stack: Vec::new(),
            current_folder_id: None,
            current_folder_name: String::from_str("root"),
            status: String::from_str("Ready"),
            input_mode: InputMode::Normal,
            input: String::new(),
            download_job: None,
            upload_picker: None,
            upload_job: None,
            blink_on: true,
            last_blink: now_ms,
            pending_delete: None,
            exit_requested: false,
        };
        assert(r@.folder_stack =~= Seq::empty());
        r
    }

    /// Enters `mode`, clearing the text typed before.
    pub fn start_input(&mut self, mode: InputMode, status: &str)
        ensures
            final(self)@ == old(self)@.start_input(mode, status@),
    {
        self.input_mode = mode;
        self.input = String::new();
        self.status = String::from_str(status);
    }

    /// Goes back to browsing, dropping the typed text and the local
    /// browser.
    pub fn cancel_input(&mut self, status: &str)
        ensures
            final(self)@ == old(self)@.cancel_input(status@),
    {
        self.input_mode = InputMode::Normal;
        self.input = String::new();
        self.status = String::from_str(status);
        self.upload_picker = None;
    }

    /// Asks whether to quit.
    pub fn start_quit_confirm(&mut self)
        ensures
            final(self)@ == old(self)@.start_quit_confirm(),
    {
        self.input_mode = InputMode::QuitConfirm;
        self.status = String::from_str("Confirm quit");
    }

    /// Requests exit and asks every running transfer to stop. The loop
    /// ends once [`App::should_exit`] holds.
    pub fn request_exit(&mut self)
        ensures
            final(self)@ == old(self)@.request_exit(),
    {
        self.exit_requested = true;
        match self.upload_job.take() {
            Some(job) => {
                self.upload_job = Some(UploadJob { progress: job.progress, cancel: true });
            },
            None => {},
        }
        match self.download_job.take() {
            Some(job) => {
                self.download_job = Some(DownloadJob { progress: job.progress, cancel: true });
            },
            None => {},
        }
    }

    /// Whether no transfer runs.
    pub fn can_quit(&self) -> (r: bool)
        ensures
            r == self@.can_quit(),
    {
        self.upload_job.is_none() && self.download_job.is_none()
    }

    /// Whether a transfer runs.
    pub fn has_active_transfer(&self) -> (r: bool)
        ensures
            r == self@.has_active_transfer(),
    {
        !self.can_quit()
    }

    /// Whether the interaction loop is to end.
    pub fn should_exit(&self) -> (r: bool)
        ensures
            r == self@.should_exit(),
    {
        self.exit_requested && self.can_quit()
    }

    /// Asks whether to delete the highlighted row.
    pub fn start_delete_confirm(&mut self)
        ensures
            final(self)@ == old(self)@.start_delete_confirm(),
    {
        let item = match self.listing.highlighted() {
            Some(item) => item.duplicate(),
            None => {
                self.status = String::from_str("No selection");
                return ;
            },
        };
        if item.is_parent {
            self.status = String::from_str("Cannot delete parent entry");
            return ;
        }
        if item.id.as_str().unicode_len() == 0 {
            self.status = String::from_str("Missing file id");
            return ;
        }
        self.pending_delete = Some(item);
        self.input_mode = InputMode::DeleteConfirm;
        self.status = String::from_str("Confirm delete");
    }

    /// Moves the highlight one row down, from the last row to the first.
    pub fn select_next(&mut self)
        ensures
            final(self)@ == old(self)@.select_next(),
    {
        self.listing.select_next();
    }

    /// Moves the highlight one row up, from the first row to the last.
    pub fn select_previous(&mut self)
        ensures
            final(self)@ == old(self)@.select_previous(),
    {
        self.listing.select_previous();
    }

    /// The listing to fetch for the folder shown.
    pub fn list_query(&self) -> (q: ListQuery)
        ensures
            q@ == self@.list_query(),
    {
        match &self.current_folder_id {
            Some(folder_id) => ListQuery::FilesInFolder { folder_id: folder_id.clone() },
            None => ListQuery::RootNotTrashed,
        }
    }

    /// Shows what was fetched for the folder shown: the rows of `files`
    /// and the parent marker, sorted; the first row highlighted; the
    /// status text reset.
    pub fn reload(&mut self, files: &Vec<RemoteFile>)
        ensures
            final(self)@ == old(self)@.reloaded(final(self)@.items),
            is_listing_of(file_views(files@), final(self)@.items),
            final(self)@.items.len() == files.len() + 1,
            listing_ordered(final(self)@.items),
    {
        self.listing = Listing::from_remote(files);
        self.status = String::from_str("Ready");
    }

    /// Goes one folder up. At the root nothing changes but the status
    /// text. Returns [`Command::Reload`] where another folder is shown,
    /// else [`Command::Nothing`].
    pub fn go_back(&mut self) -> (c: Command)
        ensures
            final(self)@ == old(self)@.go_back(),
            c@ == if old(self)@.go_back_reloads() {
                CommandView::Reload
            } else {
                CommandView::Nothing
            },
    {
        let ghost before = self.folder_stack@;
        match self.folder_stack.pop() {
            Some(previous) => {
                assert(frame_views(self.folder_stack@) =~= frame_views(before).drop_last());
                self.current_folder_id = previous.id;
                self.current_folder_name = previous.name;
                Command::Reload
            },
            None => {
                self.status = String::from_str("Already at root");
                Command::Nothing
            },
        }
    }

    /// Opens the highlighted row. Returns [`Command::Reload`] where
    /// another folder is shown, else [`Command::Nothing`].
    pub fn open_selected(&mut self) -> (c: Command)
        ensures
            final(self)@ == old(self)@.open_selected(),
            c@ == if old(self)@.open_reloads() {
                CommandView::Reload
            } else {
                CommandView::Nothing
            },
    {
        let item = match self.listing.highlighted() {
            Some(item) => item.duplicate(),
            None => {
                self.status = String::from_str("No selection");
                return Command::Nothing;
            },
        };
        if !item.is_folder {
            self.status = String::from_str("Not a folder");
            return Command::Nothing;
        }
        if item.is_parent {
            return self.go_back();
        }
        if item.id.as_str().unicode_len() == 0 {
            self.status = String::from_str("Missing folder id");
            return Command::Nothing;
        }
        let previous = FolderState {
            id: copy_opt(&self.current_folder_id),
            name: self.current_folder_name.clone(),
        };
        let ghost before = self.folder_stack@;
        self.folder_stack.push(previous);
        assert(frame_views(self.folder_stack@) =~= frame_views(before).push(previous@));
        self.current_folder_id = Some(item.id);
        self.current_folder_name = item.name;
        Command::Reload
    }

    /// Opens the local browser on the working directory as it was read,
    /// or reports why it could not be read.
    pub fn start_upload_picker(&mut self, loaded: Result<LocalDir, String>)
        ensures
            match loaded {
                Ok(dir) => {
                    &&& final(self)@.upload_picker matches Some(picker)
                    &&& picker.shows(dir@)
                    &&& picker.selected == 0
                    &&& picker.selected_path is None
                    &&& final(self)@ == old(self)@.picker_opened(picker)
                },
                Err(e) => final(self)@ == old(self)@.with_status(
                    "Failed to open upload picker: "@ + e@,
                ),
            },
    {
        match loaded {
            Ok(dir) => {
                self.upload_picker = Some(UploadPicker::from_dir(&dir));
                self.input_mode = InputMode::UploadPicker;
                self.status = String::from_str("Upload picker");
            },
            Err(e) => {
                self.status = join2("Failed to open upload picker: ", e.as_str());
            },
        }
    }

    /// Moves the local browser to the directory `dir` as it was read. The
    /// marked path stays. Without a browser nothing changes.
    pub fn picker_entered(&mut self, dir: &LocalDir)
        ensures
            match old(self)@.upload_picker {
                Some(before) => {
                    &&& final(self)@.upload_picker matches Some(picker)
                    &&& picker.shows(dir@)
                    &&& picker.selected == 0
                    &&& picker.selected_path == before.selected_path
                    &&& final(self)@ == (AppView { upload_picker: Some(picker), ..old(self)@ })
                },
                None => final(self)@ == old(self)@,
            },
    {
        match self.upload_picker.take() {
            Some(mut picker) => {
                picker.enter(dir);
                self.upload_picker = Some(picker);
            },
            None => {},
        }
    }

    /// Shows the outcome of a delete in the status text. Returns
    /// [`Command::Reload`] after a delete that succeeded, else
    /// [`Command::Nothing`]: a failed delete leaves the rows as they are.
    pub fn delete_finished(&mut self, outcome: Result<(), String>) -> (c: Command)
        ensures
            final(self)@ == old(self)@.delete_finished(outcome_view(outcome)),
            c@ == if outcome is Ok {
                CommandView::Reload
            } else {
                CommandView::Nothing
            },
    {
        match outcome {
            Ok(_) => {
                self.status = String::from_str("Delete completed");
                Command::Reload
            },
            Err(e) => {
                self.status = join2("Delete failed: ", e.as_str());
                Command::Nothing
            },
        }
    }

    /// Starts a download of the highlighted row into `destination`, or
    /// into the working directory where none is given. The request is
    /// refused while a download runs, for a folder and for a row without
    /// identifier; a refusal changes nothing but the status text.
    pub fn download_selected(&mut self, destination: Option<String>) -> (r: Result<
        Command,
        StartError,
    >)
        ensures
            final(self)@ == old(self)@.download_selected(),
            match r {
                Ok(c) => old(self)@.download_refusal() is None && c@ == (CommandView::Download {
                    file_id: old(self)@.highlighted()->0.id,
                    destination: opt_text(destination),
                }),
                Err(e) => old(self)@.download_refusal() == Some(e),
            },
    {
        if self.download_job.is_some() {
            self.status = String::from_str("Download already in progress");
            return Err(StartError::AlreadyRunning);
        }
        let item = match self.listing.highlighted() {
            Some(item) => item.duplicate(),
            None => {
                self.status = String::from_str("No selection");
                return Err(StartError::NoSelection);
            },
        };
        if item.is_folder {
            self.status = String::from_str("Select a file to download");
            return Err(StartError::IsFolder);
        }
        if item.id.as_str().unicode_len() == 0 {
            self.status = String::from_str("Missing file id");
            return Err(StartError::MissingId);
        }
        self.download_job = Some(
            DownloadJob { progress: DownloadProgress::new(item.name), cancel: false },
        );
        self.status = String::from_str("Download started");
        Ok(Command::Download { file_id: item.id, destination })
    }

    /// Starts an upload of the local `path` into the folder shown. The
    /// request is refused while an upload runs; a refusal changes nothing
    /// but the status text.
    pub fn start_upload_job(&mut self, path: String) -> (r: Result<Command, StartError>)
        ensures
            final(self)@ == old(self)@.start_upload_job(),
            match r {
                Ok(c) => old(self)@.upload_job is None && c@ == (CommandView::Upload {
                    path: path@,
                    parent: old(self)@.current_folder_id,
                }),
                Err(e) => old(self)@.upload_job is Some && e == StartError::AlreadyRunning,
            },
    {
        if self.upload_job.is_some() {
            self.status = String::from_str("Upload already in progress");
            return Err(StartError::AlreadyRunning);
        }
        self.upload_job = Some(UploadJob { progress: UploadProgress::new(), cancel: false });
        self.status = String::from_str("Upload started");
        Ok(Command::Upload { path, parent: copy_opt(&self.current_folder_id) })
    }

    /// The first half of a tick of housekeeping: the blinking hint and the
    /// upload. `now_ms` is the reading of the clock; `upload` is the
    /// progress that the worker reported since the last tick, if any. An
    /// upload that has ended leaves its slot, and its outcome is the
    /// status text.
    pub fn tick(&mut self, now_ms: u64, upload: Option<UploadProgress>) -> (report: TickReport)
        ensures
            final(self)@ == old(self)@.tick(now_ms, opt_upload_view(upload)),
            report == old(self)@.tick_report(now_ms, opt_upload_view(upload)),
    {
        if now_ms >= self.last_blink && now_ms - self.last_blink >= BLINK_INTERVAL_MS {
            self.blink_on = !self.blink_on;
            self.last_blink = now_ms;
        }
        let mut report = TickReport { upload_ended: false, reload: false };
        match self.upload_job.take() {
            Some(job) => {
                let progress = match upload {
                    Some(p) => p,
                    None => job.progress,
                };
                if progress.done {
                    report.upload_ended = true;
                    match progress.error {
                        Some(e) => {
                            self.status = join2("Upload failed: ", e.as_str());
                        },
                        None => {
                            self.status = String::from_str("Upload completed");
                            report.reload = true;
                        },
                    }
                } else {
                    self.upload_job = Some(UploadJob { progress, cancel: job.cancel });
                }
            },
            None => {},
        }
        report
    }

    /// The second half of a tick of housekeeping: the download. It
    /// follows the first half in the same iteration, after the listing was
    /// fetched anew where that was asked for. `download` is the progress
    /// that the worker reported since the last tick, if any. A download
    /// that has ended leaves its slot, and its outcome is the status text.
    /// Returns whether the download ended: its worker is then to be
    /// joined.
    pub fn tick_download(&mut self, download: Option<DownloadProgress>) -> (ended: bool)
        ensures
            final(self)@ == old(self)@.tick_download(opt_download_view(download)),
            ended == old(self)@.observe_download(opt_download_view(download)).download_ended(),
    {
        match self.download_job.take() {
            Some(job) => {
                let progress = match download {
                    Some(p) => p,
                    None => job.progress,
                };
                if progress.done {
                    match progress.error {
                        Some(e) => {
                            self.status = join2("Download failed: ", e.as_str());
                        },
                        None => {
                            self.status = String::from_str("Download completed");
                        },
                    }
                    true
                } else {
                    self.download_job = Some(DownloadJob { progress, cancel: job.cancel });
                    false
                }
            },
            None => false,
        }
    }

    /// The rows shown.
    pub fn items(&self) -> (r: &Vec<DriveItem>)
        ensures
            item_views(r@) == self@.items,
    {
        self.listing.items()
    }

    /// The index of the highlighted row: a row that exists, or 0 where
    /// none is listed.
    pub fn selected(&self) -> (r: usize)
        ensures
            r == self@.selected,
            self@.wf(),
    {
        self.listing.selected()
    }

    /// The folders from the root to the parent of the folder shown.
    pub fn folder_stack(&self) -> (r: &Vec<FolderState>)
        ensures
            frame_views(r@) == self@.folder_stack,
    {
        &self.folder_stack
    }

    /// The identifier of the folder shown; none for the root.
    pub fn current_folder_id(&self) -> (r: &Option<String>)
        ensures
            opt_text(*r) == self@.current_folder_id,
    {
        &self.current_folder_id
    }

    /// The name of the folder shown.
    pub fn current_folder_name(&self) -> (r: &String)
        ensures
            r@ == self@.current_folder_name,
    {
        &self.current_folder_name
    }

    /// The status text.
    pub fn status(&self) -> (r: &String)
        ensures
            r@ == self@.status,
    {
        &self.status
    }

    /// The mode that the keys are read in.
    pub fn input_mode(&self) -> (r: InputMode)
        ensures
            r == self@.input_mode,
    {
        self.input_mode
    }

    /// The text typed so far.
    pub fn input(&self) -> (r: &String)
        ensures
            r@ == self@.input,
    {
        &self.input
    }

    /// The running download, if any.
    pub fn download_job(&self) -> (r: &Option<DownloadJob>)
        ensures
            download_job_view(*r) == self@.download_job,
    {
        &self.download_job
    }

    /// The running upload, if any.
    pub fn upload_job(&self) -> (r: &Option<UploadJob>)
        ensures
            upload_job_view(*r) == self@.upload_job,
    {
        &self.upload_job
    }

    /// The local browser, while it is open.
    pub fn upload_picker(&self) -> (r: &Option<UploadPicker>)
        ensures
            picker_view(*r) == self@.upload_picker,
    {
        &self.upload_picker
    }

    /// The phase of the blinking hint.
    pub fn blink_on(&self) -> (r: bool)
        ensures
            r == self@.blink_on,
    {
        self.blink_on
    }

    /// The row that a confirmed delete would remove.
    pub fn pending_delete(&self) -> (r: &Option<DriveItem>)
        ensures
            opt_item_view(*r) == self@.pending_delete,
    {
        &self.pending_delete
    }

    /// Whether exit was requested.
    pub fn exit_requested(&self) -> (r: bool)
        ensures
            r == self@.exit_requested,
    {
        self.exit_requested
    }

    /// Whether the running upload was asked to stop.
    pub fn upload_cancelled(&self) -> (r: bool)
        ensures
            r == (self@.upload_job matches Some(job) && job.cancel),
    {
        match &self.upload_job {
            Some(job) => job.cancel,
            None => false,
        }
    }

    /// Whether the running download was asked to stop.
    pub fn download_cancelled(&self) -> (r: bool)
        ensures
            r == (self@.download_job matches Some(job) && job.cancel),
    {
        match &self.download_job {
            Some(job) => job.cancel,
            None => false,
        }
    }

    /// Reports that the listing of the folder shown could not be fetched.
    /// The rows, the highlight and the folder stay as they are; only the
    /// status text tells of the failure.
    pub fn reload_failed(&mut self, error: &str)
        ensures
            final(self)@ == old(self)@.reload_failed(error@),
    {
        self.status = join2("Error: ", error);
    }

    /// Reports that the listing could not be fetched anew after an upload.
    pub fn refresh_failed(&mut self, error: &str)
        ensures
            final(self)@ == old(self)@.with_status(
                "Upload completed (refresh failed: "@ + error@ + ")"@,
            ),
    {
        let mut status = join2("Upload completed (refresh failed: ", error);
        status.append(")");
        self.status = status;
    }
}

/// While an upload runs, a request to start another is refused: the job
/// that runs stays exactly as it is, and so does everything else but the
/// status text. The same holds of downloads.
pub proof fn lemma_second_start_rejected(s: AppView)
    ensures
        s.upload_job is Some ==> s.start_upload_job() == s.with_status(
            "Upload already in progress"@,
        ),
        s.upload_job is Some ==> s.start_upload_job().upload_job == s.upload_job,
        s.download_job is Some ==> s.download_refusal() == Some(StartError::AlreadyRunning),
        s.download_job is Some ==> s.download_selected() == s.with_status(
            "Download already in progress"@,
        ),
        s.download_job is Some ==> s.download_selected().download_job == s.download_job,
{
}

/// Going back at the root leaves the state as it is, sets the status text
/// to say so, and asks for no listing.
pub proof fn lemma_go_back_at_root(s: AppView)
    requires
        s.folder_stack.len() == 0,
    ensures
        s.go_back() == s.with_status("Already at root"@),
        !s.go_back_reloads(),
{
}

/// Opening a folder and going back restores the folder that was shown
/// before: its identifier, its name and the stack under it, whatever was
/// listed in between. Going back asks for the listing to be fetched anew,
/// and the rows shown afterwards are those of that fetch.
pub proof fn lemma_open_then_back(s: AppView, inside: Seq<ItemView>, again: Seq<ItemView>)
    requires
        s.opens_folder(),
    ensures
        s.open_reloads(),
        s.open_selected().current_folder_id == Some(s.highlighted()->0.id),
        s.open_selected().reloaded(inside).go_back_reloads(),
        s.open_selected().reloaded(inside).go_back().current_folder_id == s.current_folder_id,
        s.open_selected().reloaded(inside).go_back().current_folder_name == s.current_folder_name,
        s.open_selected().reloaded(inside).go_back().folder_stack == s.folder_stack,
        s.open_selected().reloaded(inside).go_back().reloaded(again).items == again,
{
    let t = s.open_selected();
    assert(t.folder_stack.drop_last() =~= s.folder_stack);
}

/// No tick and no request for exit takes back a request to stop: a job
/// that was asked to stop and still runs afterwards is still asked to stop.
pub proof fn lemma_cancel_stays(
    s: AppView,
    now_ms: u64,
    upload: Option<UploadProgressView>,
    download: Option<DownloadProgressView>,
)
    ensures
        s.upload_job matches Some(before) && before.cancel ==> (s.tick(
            now_ms,
            upload,
        ).upload_job matches Some(after) ==> after.cancel),
        s.download_job matches Some(before) && before.cancel ==> (s.tick_download(
            download,
        ).download_job matches Some(after) ==> after.cancel),
        s.tick(now_ms, upload).download_job == s.download_job,
        s.tick_download(download).upload_job == s.upload_job,
        s.request_exit().upload_job matches Some(after) ==> after.cancel,
        s.request_exit().download_job matches Some(after) ==> after.cancel,
{
}

/// A tick starts no job. It removes a job if and only if the job has
/// reported its end, and a job that stays shows the progress last
/// reported with its request to stop unchanged.
pub proof fn lemma_tick_jobs(
    s: AppView,
    now_ms: u64,
    upload: Option<UploadProgressView>,
    download: Option<DownloadProgressView>,
)
    ensures
        s.upload_job is None ==> s.tick(now_ms, upload).upload_job is None,
        s.download_job is None ==> s.tick_download(download).download_job is None,
        s.upload_job is Some ==> (s.tick(now_ms, upload).upload_job is None <==> s.observe_upload(
            upload,
        ).upload_ended()),
        s.download_job is Some ==> (s.tick_download(download).download_job is None
            <==> s.observe_download(download).download_ended()),
        s.tick(now_ms, upload).upload_job is Some ==> s.tick(now_ms, upload).upload_job
            == s.observe_upload(upload).upload_job,
        s.tick_download(download).download_job is Some ==> s.tick_download(download).download_job
            == s.observe_download(download).download_job,
{
}

/// One iteration reconciles every job that has ended: after both halves
/// of a tick, with or without a reload between them, no slot holds a job
/// that has reported its end. Where exit was requested and both jobs have
/// ended, the loop is then to end.
pub proof fn lemma_iteration_reconciles(
    s: AppView,
    now_ms: u64,
    upload: Option<UploadProgressView>,
    download: Option<DownloadProgressView>,
    rows: Seq<ItemView>,
)
    ensures
        !s.tick(now_ms, upload).tick_download(download).upload_ended(),
        !s.tick(now_ms, upload).tick_download(download).download_ended(),
        !s.tick(now_ms, upload).reloaded(rows).tick_download(download).upload_ended(),
        !s.tick(now_ms, upload).reloaded(rows).tick_download(download).download_ended(),
        s.exit_requested && s.observe_upload(upload).upload_ended() && s.observe_download(
            download,
        ).download_ended() ==> s.tick(now_ms, upload).reloaded(rows).tick_download(
            download,
        ).should_exit() && s.tick(now_ms, upload).tick_download(download).should_exit(),
{
}

} // verus!

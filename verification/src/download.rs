//! The single decisions of a download: what is refused before a byte is
//! fetched, how the received bytes are counted, and whether the content
//! received is the content reported.

use vstd::prelude::*;
use crate::progress::{DownloadProgress, DownloadProgressView};
use crate::text::{copy_opt, join2, opt_text};

verus! {

/// A file as the remote store describes it.
#[derive(Clone, Debug, PartialEq, Eq)]
pub struct RemoteRecord {
    pub name: Option<String>,
    pub size: Option<i64>,
    pub is_folder: bool,
    pub is_shortcut: bool,
    /// The checksum of the content, where the store reports one.
    pub checksum: Option<String>,
}

/// The mathematical value of a [`RemoteRecord`].
pub struct RecordView {
    pub name: Option<Seq<char>>,
    pub size: Option<i64>,
    pub is_folder: bool,
    pub is_shortcut: bool,
    pub checksum: Option<Seq<char>>,
}

impl View for RemoteRecord {
    type V = RecordView;

    open spec fn view(&self) -> RecordView {
        RecordView {
            name: opt_text(self.name),
            size: self.size,
            is_folder: self.is_folder,
            is_shortcut: self.is_shortcut,
            checksum: opt_text(self.checksum),
        }
    }
}

/// Why a download ended abnormally.
#[derive(Clone, Debug, PartialEq, Eq)]
pub enum DownloadError {
    /// The item is a folder.
    IsDirectory,
    /// The item is a shortcut.
    IsShortcut,
    /// The item has no name.
    Unnamed,
    /// The destination does not exist.
    DestinationMissing { path: String },
    /// The destination is no directory.
    DestinationNotDirectory { path: String },
    /// A file of the final name exists already: nothing is overwritten.
    FileExists { path: String },
    /// The job was cancelled.
    Cancelled,
    /// The remote store or the file system failed.
    Transport { message: String },
    /// The content received does not have the checksum reported.
    ChecksumMismatch { expected: String, actual: String },
    /// Something was reported that the download did not wait for.
    OutOfTurn,
}

/// The mathematical value of a [`DownloadError`].
pub enum ErrorView {
    IsDirectory,
    IsShortcut,
    Unnamed,
    DestinationMissing { path: Seq<char> },
    DestinationNotDirectory { path: Seq<char> },
    FileExists { path: Seq<char> },
    Cancelled,
    Transport { message: Seq<char> },
    ChecksumMismatch { expected: Seq<char>, actual: Seq<char> },
    OutOfTurn,
}

impl View for DownloadError {
    type V = ErrorView;

    open spec fn view(&self) -> ErrorView {
        match self {
            DownloadError::IsDirectory => ErrorView::IsDirectory,
            DownloadError::IsShortcut => ErrorView::IsShortcut,
            DownloadError::Unnamed => ErrorView::Unnamed,
            DownloadError::DestinationMissing { path } => ErrorView::DestinationMissing {
                path: path@,
            },
            DownloadError::DestinationNotDirectory { path } => ErrorView::DestinationNotDirectory {
                path: path@,
            },
            DownloadError::FileExists { path } => ErrorView::FileExists { path: path@ },
            DownloadError::Cancelled => ErrorView::Cancelled,
            DownloadError::Transport { message } => ErrorView::Transport { message: message@ },
            DownloadError::ChecksumMismatch { expected, actual } => ErrorView::ChecksumMismatch {
                expected: expected@,
                actual: actual@,
            },
            DownloadError::OutOfTurn => ErrorView::OutOfTurn,
        }
    }
}

impl ErrorView {
    /// The text of this error.
    pub open spec fn text(self) -> Seq<char> {
        match self {
            ErrorView::IsDirectory => "Selected item is a directory"@,
            ErrorView::IsShortcut => "Shortcuts are not supported in TUI download"@,
            ErrorView::Unnamed => "File does not have a name"@,
            ErrorView::DestinationMissing { path } => "Destination path '"@ + path
                + "' does not exist"@,
            ErrorView::DestinationNotDirectory { path } => "Destination path '"@ + path
                + "' is not a directory"@,
            ErrorView::FileExists { path } => "File '"@ + path
                + "' already exists, delete it or use a different destination"@,
            ErrorView::Cancelled => "Cancelled"@,
            ErrorView::Transport { message } => message,
            ErrorView::ChecksumMismatch { expected, actual } => "MD5 mismatch, expected: "@
                + expected + ", actual: "@ + actual,
            ErrorView::OutOfTurn => "Download step reported out of turn"@,
        }
    }
}

impl DownloadError {
    /// The text of this error.
    pub fn message(&self) -> (r: String)
        ensures
            r@ == self@.text(),
    {
        match self {
            DownloadError::IsDirectory => String::from_str("Selected item is a directory"),
            DownloadError::IsShortcut => String::from_str(
                "Shortcuts are not supported in TUI download",
            ),
            DownloadError::Unnamed => String::from_str("File does not have a name"),
            DownloadError::DestinationMissing { path } => {
                let mut r = join2("Destination path '", path.as_str());
                r.append("' does not exist");
                r
            },
            DownloadError::DestinationNotDirectory { path } => {
                let mut r = join2("Destination path '", path.as_str());
                r.append("' is not a directory");
                r
            },
            DownloadError::FileExists { path } => {
                let mut r = join2("File '", path.as_str());
                r.append("' already exists, delete it or use a different destination");
                r
            },
            DownloadError::Cancelled => String::from_str("Cancelled"),
            DownloadError::Transport { message } => message.clone(),
            DownloadError::ChecksumMismatch { expected, actual } => {
                let mut r = join2("MD5 mismatch, expected: ", expected.as_str());
                r.append(", actual: ");
                r.append(actual.as_str());
                r
            },
            DownloadError::OutOfTurn => String::from_str("Download step reported out of turn"),
        }
    }
}

/// What is to be downloaded, taken from the record of the remote store.
#[derive(Clone, Debug, PartialEq, Eq)]
pub struct DownloadTarget {
    pub file_name: String,
    /// The size in bytes, where the store reports one that is no negative
    /// number.
    pub total_bytes: Option<u64>,
    /// The checksum that the content must have, where the store reports
    /// one.
    pub checksum: Option<String>,
}

/// The mathematical value of a [`DownloadTarget`].
pub struct TargetView {
    pub file_name: Seq<char>,
    pub total_bytes: Option<u64>,
    pub checksum: Option<Seq<char>>,
}

impl View for DownloadTarget {
    type V = TargetView;

    open spec fn view(&self) -> TargetView {
        TargetView {
            file_name: self.file_name@,
            total_bytes: self.total_bytes,
            checksum: opt_text(self.checksum),
        }
    }
}

/// What a record allows: folders, shortcuts and items without a name are
/// refused, in this order.
pub open spec fn target_of(record: RecordView) -> Result<TargetView, ErrorView> {
    if record.is_folder {
        Err(ErrorView::IsDirectory)
    } else if record.is_shortcut {
        Err(ErrorView::IsShortcut)
    } else {
        match record.name {
            None => Err(ErrorView::Unnamed),
            Some(file_name) => Ok(
                TargetView {
                    file_name,
                    total_bytes: match record.size {
                        Some(size) => if size >= 0 {
                            Some(size as u64)
                        } else {
                            None
                        },
                        None => None,
                    },
                    checksum: record.checksum,
                },
            ),
        }
    }
}

/// The view of the outcome of [`check_record`].
pub open spec fn target_result_view(r: Result<DownloadTarget, DownloadError>) -> Result<
    TargetView,
    ErrorView,
> {
    match r {
        Ok(t) => Ok(t@),
        Err(e) => Err(e@),
    }
}

/// The view of an outcome without a value.
pub open spec fn unit_result_view(r: Result<(), DownloadError>) -> Result<(), ErrorView> {
    match r {
        Ok(_) => Ok(()),
        Err(e) => Err(e@),
    }
}

/// Decides from the record of the remote store whether the item can be
/// downloaded, and announces its name and size in the progress.
pub fn check_record(record: &RemoteRecord, progress: &mut DownloadProgress) -> (r: Result<
    DownloadTarget,
    DownloadError,
>)
    ensures
        target_result_view(r) == target_of(record@),
        final(progress)@ == match target_of(record@) {
            Ok(target) => DownloadProgressView {
                file_name: target.file_name,
                total_bytes: target.total_bytes,
                ..old(progress)@
            },
            Err(_) => old(progress)@,
        },
{
    if record.is_folder {
        return Err(DownloadError::IsDirectory);
    }
    if record.is_shortcut {
        return Err(DownloadError::IsShortcut);
    }
    let file_name = match &record.name {
        Some(name) => name.clone(),
        None => {
            return Err(DownloadError::Unnamed);
        },
    };
    let total_bytes = match record.size {
        Some(size) => if size >= 0 {
            Some(size as u64)
        } else {
            None
        },
        None => None,
    };
    progress.file_name = file_name.clone();
    progress.total_bytes = total_bytes;
    Ok(DownloadTarget { file_name, total_bytes, checksum: copy_opt(&record.checksum) })
}

/// What the state of a destination allows: it must exist and be a
/// directory.
pub open spec fn destination_allowed(path: Seq<char>, exists: bool, is_dir: bool) -> Result<
    (),
    ErrorView,
> {
    if !exists {
        Err(ErrorView::DestinationMissing { path })
    } else if !is_dir {
        Err(ErrorView::DestinationNotDirectory { path })
    } else {
        Ok(())
    }
}

/// Decides whether the destination `path` can receive the download, from
/// what the file system says of it.
pub fn check_destination(path: &str, exists: bool, is_dir: bool) -> (r: Result<(), DownloadError>)
    ensures
        unit_result_view(r) == destination_allowed(path@, exists, is_dir),
{
    if !exists {
        return Err(DownloadError::DestinationMissing { path: String::from_str(path) });
    }
    if !is_dir {
        return Err(DownloadError::DestinationNotDirectory { path: String::from_str(path) });
    }
    Ok(())
}

/// What the state of the final name allows: it must be free.
pub open spec fn final_path_allowed(file_path: Seq<char>, exists: bool) -> Result<(), ErrorView> {
    if exists {
        Err(ErrorView::FileExists { path: file_path })
    } else {
        Ok(())
    }
}

/// Decides whether the final name `file_path` is free: an existing file is
/// never overwritten.
pub fn check_final_path(file_path: &str, exists: bool) -> (r: Result<(), DownloadError>)
    ensures
        unit_result_view(r) == final_path_allowed(file_path@, exists),
{
    if exists {
        Err(DownloadError::FileExists { path: String::from_str(file_path) })
    } else {
        Ok(())
    }
}

/// Counts the bytes of a body as they arrive.
#[derive(Clone, Copy, Debug)]
pub struct Receiver {
    pub written: u64,
}

/// A chunk as it arrived: its length, or the failure of the transport.
pub open spec fn chunk_view(chunk: Result<usize, String>) -> Result<usize, Seq<char>> {
    match chunk {
        Ok(n) => Ok(n),
        Err(e) => Err(e@),
    }
}

/// What a chunk leads to: a cancelled job ends before the chunk is looked
/// at, a failed chunk ends the job, and any other chunk is to be written
/// and counted.
pub open spec fn chunk_outcome(written: u64, cancelled: bool, chunk: Result<usize, Seq<char>>) -> Result<
    u64,
    ErrorView,
> {
    if cancelled {
        Err(ErrorView::Cancelled)
    } else {
        match chunk {
            Err(message) => Err(ErrorView::Transport { message }),
            Ok(n) => Ok(
                if written + n <= u64::MAX {
                    (written + n) as u64
                } else {
                    u64::MAX
                },
            ),
        }
    }
}

/// The view of the outcome of [`Receiver::on_chunk`].
pub open spec fn count_result_view(r: Result<u64, DownloadError>) -> Result<u64, ErrorView> {
    match r {
        Ok(n) => Ok(n),
        Err(e) => Err(e@),
    }
}

impl Receiver {
    /// A receiver that has seen nothing.
    pub fn new() -> (r: Receiver)
        ensures
            r.written == 0,
    {
        Receiver { written: 0 }
    }

    /// Takes the next chunk of the body. Returns the number of bytes
    /// received so far, which the caller writes the chunk for; the count
    /// never goes back and stops at the largest number it can hold. The
    /// progress shows the new count.
    pub fn on_chunk(
        &mut self,
        cancelled: bool,
        chunk: Result<usize, String>,
        progress: &mut DownloadProgress,
    ) -> (r: Result<u64, DownloadError>)
        ensures
            count_result_view(r) == chunk_outcome(old(self).written, cancelled, chunk_view(chunk)),
            final(self).written == match r {
                Ok(n) => n,
                Err(_) => old(self).written,
            },
            final(self).written >= old(self).written,
            final(progress)@ == (DownloadProgressView {
                current_bytes: match r {
                    Ok(n) => n,
                    Err(_) => old(progress).current_bytes,
                },
                ..old(progress)@
            }),
    {
        if cancelled {
            return Err(DownloadError::Cancelled);
        }
        match chunk {
            Err(message) => Err(DownloadError::Transport { message }),
            Ok(n) => {
                self.written = self.written.saturating_add(n as u64);
                progress.current_bytes = self.written;
                Ok(self.written)
            },
        }
    }
}

/// Whether the content received is the content reported: where the store
/// reported a checksum, the computed one must equal it.
pub open spec fn checksum_verdict(expected: Option<Seq<char>>, actual: Seq<char>) -> Result<
    (),
    ErrorView,
> {
    match expected {
        Some(expected) => if expected != actual {
            Err(ErrorView::ChecksumMismatch { expected, actual })
        } else {
            Ok(())
        },
        None => Ok(()),
    }
}

/// Compares the checksum computed over the content received with the one
/// that the remote store reported.
pub fn verify_checksum(expected: &Option<String>, actual: &String) -> (r: Result<(), DownloadError>)
    ensures
        unit_result_view(r) == checksum_verdict(opt_text(*expected), actual@),
{
    match expected {
        Some(expected) => {
            if *expected != *actual {
                Err(
                    DownloadError::ChecksumMismatch {
                        expected: expected.clone(),
                        actual: actual.clone(),
                    },
                )
            } else {
                Ok(())
            }
        },
        None => Ok(()),
    }
}

} // verus!

//! Progress records of transfers, and the position tracker of an
//! instrumented upload stream.

use vstd::prelude::*;
use crate::text::{copy_opt, opt_text};

verus! {

/// How far an upload has come.
#[derive(Clone, Debug, PartialEq, Eq)]
pub struct UploadProgress {
    /// The file in flight.
    pub current_file: Option<String>,
    /// Bytes of the file in flight that were read so far.
    pub current_bytes: u64,
    /// Size of the file in flight.
    pub total_bytes: Option<u64>,
    /// Files that were uploaded completely.
    pub done_files: u64,
    /// Files to upload in all; unknown until planning is complete.
    pub total_files: Option<u64>,
    /// Whether the job has ended.
    pub done: bool,
    /// Why the job ended abnormally, if it did.
    pub error: Option<String>,
}

/// The mathematical value of an [`UploadProgress`].
pub struct UploadProgressView {
    pub current_file: Option<Seq<char>>,
    pub current_bytes: u64,
    pub total_bytes: Option<u64>,
    pub done_files: u64,
    pub total_files: Option<u64>,
    pub done: bool,
    pub error: Option<Seq<char>>,
}

impl View for UploadProgress {
    type V = UploadProgressView;

    open spec fn view(&self) -> UploadProgressView {
        UploadProgressView {
            current_file: opt_text(self.current_file),
            current_bytes: self.current_bytes,
            total_bytes: self.total_bytes,
            done_files: self.done_files,
            total_files: self.total_files,
            done: self.done,
            error: opt_text(self.error),
        }
    }
}

/// The progress of an upload that has not begun.
pub open spec fn fresh_upload() -> UploadProgressView {
    UploadProgressView {
        current_file: None,
        current_bytes: 0,
        total_bytes: None,
        done_files: 0,
        total_files: None,
        done: false,
        error: None,
    }
}

impl UploadProgress {
    /// The progress of an upload that has not begun.
    pub fn new() -> (r: UploadProgress)
        ensures
            r@ == fresh_upload(),
    {
        UploadProgress {
            current_file: None,
            current_bytes: 0,
            total_bytes: None,
            done_files: 0,
            total_files: None,
            done: false,
            error: None,
        }
    }

    /// A copy of this record.
    pub fn duplicate(&self) -> (r: UploadProgress)
        ensures
            r@ == self@,
    {
        UploadProgress {
            current_file: copy_opt(&self.current_file),
            current_bytes: self.current_bytes,
            total_bytes: self.total_bytes,
            done_files: self.done_files,
            total_files: self.total_files,
            done: self.done,
            error: copy_opt(&self.error),
        }
    }

    /// Announces the upload of a single file: its name and size, nothing
    /// read of it yet, one file in all and none done.
    pub fn begin_single(&mut self, name: String, size: u64)
        ensures
            final(self)@ == (UploadProgressView {
                current_file: Some(name@),
                total_bytes: Some(size),
                current_bytes: 0,
                done_files: 0,
                total_files: Some(1),
                ..old(self)@
            }),
    {
        self.current_file = Some(name);
        self.total_bytes = Some(size);
        self.current_bytes = 0;
        self.done_files = 0;
        self.total_files = Some(1);
    }

    /// Announces the next file: its name and size, nothing read of it yet.
    pub fn begin_file(&mut self, name: String, size: u64)
        ensures
            final(self)@ == (UploadProgressView {
                current_file: Some(name@),
                total_bytes: Some(size),
                current_bytes: 0,
                ..old(self)@
            }),
    {
        self.current_file = Some(name);
        self.total_bytes = Some(size);
        self.current_bytes = 0;
    }

    /// Counts one more file as uploaded; the count stops at the largest
    /// number it can hold.
    pub fn file_done(&mut self)
        ensures
            final(self)@ == (UploadProgressView {
                done_files: if old(self).done_files < u64::MAX {
                    (old(self).done_files + 1) as u64
                } else {
                    u64::MAX
                },
                ..old(self)@
            }),
    {
        self.done_files = self.done_files.saturating_add(1);
    }

    /// Marks the job as ended, with the reason where it ended abnormally.
    /// The error is set if and only if one is given.
    pub fn finish(&mut self, error: Option<String>)
        ensures
            final(self)@ == (UploadProgressView { done: true, error: opt_text(error), ..old(self)@ }),
    {
        self.done = true;
        self.error = error;
    }
}

/// How far a download has come.
#[derive(Clone, Debug, PartialEq, Eq)]
pub struct DownloadProgress {
    pub file_name: String,
    /// Bytes written so far.
    pub current_bytes: u64,
    /// Size of the file; unknown until the remote record is fetched.
    pub total_bytes: Option<u64>,
    /// Whether the job has ended.
    pub done: bool,
    /// Why the job ended abnormally, if it did.
    pub error: Option<String>,
}

/// The mathematical value of a [`DownloadProgress`].
pub struct DownloadProgressView {
    pub file_name: Seq<char>,
    pub current_bytes: u64,
    pub total_bytes: Option<u64>,
    pub done: bool,
    pub error: Option<Seq<char>>,
}

impl View for DownloadProgress {
    type V = DownloadProgressView;

    open spec fn view(&self) -> DownloadProgressView {
        DownloadProgressView {
            file_name: self.file_name@,
            current_bytes: self.current_bytes,
            total_bytes: self.total_bytes,
            done: self.done,
            error: opt_text(self.error),
        }
    }
}

/// The progress of a download of `file_name` that has not begun.
pub open spec fn fresh_download(file_name: Seq<char>) -> DownloadProgressView {
    DownloadProgressView { file_name, current_bytes: 0, total_bytes: None, done: false, error: None }
}

impl DownloadProgress {
    /// The progress of a download that has not begun.
    pub fn new(file_name: String) -> (r: DownloadProgress)
        ensures
            r@ == fresh_download(file_name@),
    {
        DownloadProgress { file_name, current_bytes: 0, total_bytes: None, done: false, error: None }
    }

    /// A copy of this record.
    pub fn duplicate(&self) -> (r: DownloadProgress)
        ensures
            r@ == self@,
    {
        DownloadProgress {
            file_name: self.file_name.clone(),
            current_bytes: self.current_bytes,
            total_bytes: self.total_bytes,
            done: self.done,
            error: copy_opt(&self.error),
        }
    }

    /// Marks the job as ended, with the reason where it ended abnormally.
    /// The error is set if and only if one is given.
    pub fn finish(&mut self, error: Option<String>)
        ensures
            final(self)@ == (DownloadProgressView {
                done: true,
                error: opt_text(error),
                ..old(self)@
            }),
    {
        self.done = true;
        self.error = error;
    }
}

/// Why a read or a seek on an instrumented stream was refused.
#[derive(Clone, Copy, Debug, PartialEq, Eq, Structural)]
pub enum StreamError {
    /// The job was cancelled.
    Cancelled,
}

/// Follows the position of an upload stream. The owner of the stream asks
/// [`ProgressReader::check`] before each read or seek, performs it, and
/// reports what happened; what it gets back is what the progress record
/// shows as bytes read. The stream may be rewound to send a chunk again,
/// but the count that is published never falls: it is the farthest
/// position that the stream has reached.
#[derive(Clone, Copy, Debug, PartialEq, Eq)]
pub struct ProgressReader {
    /// Where the stream stands.
    pub position: u64,
    /// The count that was published last: the farthest position reached.
    pub published: u64,
}

/// The position after a read of `count` bytes at `position`: forward by
/// `count`, stopping at the largest position there is.
pub open spec fn position_after_read(position: u64, count: usize) -> u64 {
    if position + count <= u64::MAX {
        (position + count) as u64
    } else {
        u64::MAX
    }
}

/// The count to publish once the stream stands at `position`: the larger
/// of that and what was published before.
pub open spec fn farthest(published: u64, position: u64) -> u64 {
    if position > published {
        position
    } else {
        published
    }
}

/// The tracker after a read of `count` bytes. An empty read changes
/// nothing.
pub open spec fn after_read(r: ProgressReader, count: usize) -> ProgressReader {
    if count > 0 {
        ProgressReader {
            position: position_after_read(r.position, count),
            published: farthest(r.published, position_after_read(r.position, count)),
        }
    } else {
        r
    }
}

/// The tracker after a seek that ended at `new_pos`.
pub open spec fn after_seek(r: ProgressReader, new_pos: u64) -> ProgressReader {
    ProgressReader { position: new_pos, published: farthest(r.published, new_pos) }
}

impl ProgressReader {
    /// A tracker at the start of the stream, nothing published.
    pub fn new() -> (r: ProgressReader)
        ensures
            r.position == 0,
            r.published == 0,
    {
        ProgressReader { position: 0, published: 0 }
    }

    /// Whether a read or a seek may go ahead: not once the job is
    /// cancelled.
    pub fn check(&self, cancelled: bool) -> (r: Result<(), StreamError>)
        ensures
            cancelled <==> r == Err::<(), StreamError>(StreamError::Cancelled),
            !cancelled <==> r is Ok,
    {
        if cancelled {
            Err(StreamError::Cancelled)
        } else {
            Ok(())
        }
    }

    /// Records a read of `count` bytes. The position moves forward by
    /// `count`, stopping at the largest position it can hold. Returns the
    /// count to publish, which is never lower than the one before, or
    /// nothing for an empty read.
    pub fn read(&mut self, count: usize) -> (publish: Option<u64>)
        ensures
            *final(self) == after_read(*old(self), count),
            final(self).position >= old(self).position,
            final(self).published >= old(self).published,
            publish == if count > 0 { Some(final(self).published) } else { None::<u64> },
    {
        if count > 0 {
            self.position = self.position.saturating_add(count as u64);
            if self.position > self.published {
                self.published = self.position;
            }
            Some(self.published)
        } else {
            None
        }
    }

    /// Records a seek that ended at `new_pos`. Returns the count to
    /// publish, which is never lower than the one before: a seek back
    /// moves the position and leaves the count where it was.
    pub fn seek(&mut self, new_pos: u64) -> (publish: u64)
        ensures
            *final(self) == after_seek(*old(self), new_pos),
            final(self).position == new_pos,
            publish == final(self).published,
            publish >= old(self).published,
            publish >= new_pos,
    {
        self.position = new_pos;
        if new_pos > self.published {
            self.published = new_pos;
        }
        self.published
    }
}

/// Within one transfer the count that is published never falls, whatever
/// reads and seeks follow one another, and it is never behind the
/// position of the stream.
pub proof fn lemma_published_never_falls(r: ProgressReader, count: usize, new_pos: u64)
    ensures
        after_read(r, count).published >= r.published,
        after_seek(r, new_pos).published >= r.published,
        r.published >= r.position ==> after_read(r, count).published >= after_read(
            r,
            count,
        ).position,
        after_seek(r, new_pos).published >= after_seek(r, new_pos).position,
{
}

} // verus!

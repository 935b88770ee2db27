//! The status line: the progress of a running transfer, or else the
//! status text.

use vstd::prelude::*;
use crate::nav::{App, AppView};
use crate::progress::{DownloadProgressView, UploadProgressView};
use crate::text::{decimal, decimal_text, join2};

verus! {

/// Two sizes as `(current/total)`.
pub open spec fn size_pair(current: Seq<char>, total: Seq<char>) -> Seq<char> {
    "("@ + current + "/"@ + total + ")"@
}

/// The line of a running upload. `current` and `total` are the bytes read
/// and the size of the file in flight, as texts.
pub open spec fn upload_line(p: UploadProgressView, current: Seq<char>, total: Seq<char>) -> Seq<
    char,
> {
    match p.total_files {
        Some(total_files) => {
            let file = match p.current_file {
                Some(f) => f,
                None => "<unknown>"@,
            };
            let file_info = if p.total_bytes is Some {
                file + " "@ + size_pair(current, total)
            } else {
                file
            };
            "Uploading "@ + file_info + " ["@ + decimal_text(p.done_files as nat) + "/"@
                + decimal_text(total_files as nat) + "]"@
        },
        None => if p.total_bytes is Some {
            "Uploading "@ + size_pair(current, total)
        } else {
            "Uploading..."@
        },
    }
}

/// The line of a running download. `current` and `total` are the bytes
/// written and the size of the file, as texts.
pub open spec fn download_line(p: DownloadProgressView, current: Seq<char>, total: Seq<char>) -> Seq<
    char,
> {
    if p.total_bytes is Some {
        "Downloading "@ + p.file_name + " "@ + size_pair(current, total)
    } else {
        "Downloading "@ + p.file_name + " ("@ + current + ")"@
    }
}

impl AppView {
    /// The byte counts that the status line shows: those of the upload
    /// where one runs, else those of the download, else none. The first
    /// is the count so far, the second the size, each shown only where the
    /// size is known, but for a download, which always shows its count.
    pub open spec fn shown_sizes(self) -> (Option<u64>, Option<u64>) {
        match self.upload_job {
            Some(job) => match job.progress.total_bytes {
                Some(total) => (Some(job.progress.current_bytes), Some(total)),
                None => (None, None),
            },
            None => match self.download_job {
                Some(job) => (Some(job.progress.current_bytes), job.progress.total_bytes),
                None => (None, None),
            },
        }
    }

    /// The status line, with the byte counts written as `current` and
    /// `total`.
    pub open spec fn status_line(self, current: Seq<char>, total: Seq<char>) -> Seq<char> {
        match self.upload_job {
            Some(job) => upload_line(job.progress, current, total),
            None => match self.download_job {
                Some(job) => download_line(job.progress, current, total),
                None => self.status,
            },
        }
    }
}

/// Whether `text` is what `human` makes of `n`, or nothing is to be made.
pub open spec fn written_by<F: Fn(u64) -> String>(human: F, n: Option<u64>, text: String) -> bool {
    match n {
        Some(n) => call_ensures(human, (n,), text),
        None => text@ == Seq::<char>::empty(),
    }
}

/// Writes a byte count with `human`, where there is one to write.
fn write_size<F: Fn(u64) -> String>(human: &F, n: Option<u64>) -> (r: String)
    requires
        forall|k: u64| call_requires(*human, (k,)),
    ensures
        written_by(*human, n, r),
{
    match n {
        Some(n) => human(n),
        None => String::new(),
    }
}

impl App {
    /// The byte counts that the status line shows.
    fn shown_sizes(&self) -> (r: (Option<u64>, Option<u64>))
        ensures
            r == self@.shown_sizes(),
    {
        match &self.upload_job {
            Some(job) => match job.progress.total_bytes {
                Some(total) => (Some(job.progress.current_bytes), Some(total)),
                None => (None, None),
            },
            None => match &self.download_job {
                Some(job) => (Some(job.progress.current_bytes), job.progress.total_bytes),
                None => (None, None),
            },
        }
    }

    /// The status line: the progress of the upload where one runs, else
    /// that of the download, else the status text. Byte counts are
    /// written by `human`, which is called for each count that the line
    /// shows and for no other.
    pub fn render_status<F: Fn(u64) -> String>(&self, human: F) -> (r: String)
        requires
            forall|k: u64| call_requires(human, (k,)),
        ensures
            exists|current: String, total: String|
                written_by(human, self@.shown_sizes().0, current) && written_by(
                    human,
                    self@.shown_sizes().1,
                    total,
                ) && r@ == #[trigger] self@.status_line(current@, total@),
    {
        let sizes = self.shown_sizes();
        let current = write_size(&human, sizes.0);
        let total = write_size(&human, sizes.1);
        let r = match &self.upload_job {
            Some(job) => {
                let p = &job.progress;
                match p.total_files {
                    Some(total_files) => {
                        let mut line = String::from_str("Uploading ");
                        match &p.current_file {
                            Some(f) => line.append(f.as_str()),
                            None => line.append("<unknown>"),
                        }
                        if p.total_bytes.is_some() {
                            line.append(" ");
                            append_pair(&mut line, &current, &total);
                        }
                        line.append(" [");
                        line.append(decimal(p.done_files).as_str());
                        line.append("/");
                        line.append(decimal(total_files).as_str());
                        line.append("]");
                        assert(line@ =~= upload_line(p@, current@, total@));
                        line
                    },
                    None => {
                        if p.total_bytes.is_some() {
                            let mut line = String::from_str("Uploading ");
                            append_pair(&mut line, &current, &total);
                            line
                        } else {
                            String::from_str("Uploading...")
                        }
                    },
                }
            },
            None => match &self.download_job {
                Some(job) => {
                    let p = &job.progress;
                    let mut line = join2("Downloading ", p.file_name.as_str());
                    if p.total_bytes.is_some() {
                        line.append(" ");
                        append_pair(&mut line, &current, &total);
                        assert(line@ =~= download_line(p@, current@, total@));
                    } else {
                        line.append(" (");
                        line.append(current.as_str());
                        line.append(")");
                    }
                    line
                },
                None => self.status.clone(),
            },
        };
        assert(r@ == self@.status_line(current@, total@));
        r
    }
}

/// Appends two sizes as `(current/total)`.
fn append_pair(line: &mut String, current: &String, total: &String)
    ensures
        final(line)@ == old(line)@ + size_pair(current@, total@),
{
    line.append("(");
    line.append(current.as_str());
    line.append("/");
    line.append(total.as_str());
    line.append(")");
    assert(line@ =~= old(line)@ + size_pair(current@, total@));
}

} // verus!

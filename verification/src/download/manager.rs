//! Download tasks and the byte-range requests of chunked downloads.
use vstd::prelude::*;
use crate::json::{decimal, u64_to_string};
use crate::text::join;

verus! {

/// The state of a download task.
#[derive(Debug, Clone, PartialEq, Eq)]
pub enum DownloadStatus {
    Pending,
    Downloading,
    Paused,
    Completed,
    Failed(String),
}

/// One queued download.
#[derive(Debug, Clone)]
pub struct DownloadTask {
    pub url: String,
    pub destination_path: String,
    pub total_bytes: u64,
    pub downloaded_bytes: u64,
    pub status: DownloadStatus,
}

/// A task for `url` into `destination_path`, pending, with nothing known or
/// downloaded yet.
pub fn queued_task(url: String, destination_path: String) -> (t: DownloadTask)
    ensures
        t.url@ == url@,
        t.destination_path@ == destination_path@,
        t.total_bytes == 0,
        t.downloaded_bytes == 0,
        t.status matches DownloadStatus::Pending,
{
    DownloadTask { url, destination_path, total_bytes: 0, downloaded_bytes: 0, status: DownloadStatus::Pending }
}

/// The `Range` header value asking for bytes `start` to `end`, both included.
pub fn range_header(start: u64, end: u64) -> (r: String)
    ensures
        r@ == "bytes="@ + decimal(start as nat) + "-"@ + decimal(end as nat),
{
    let s = u64_to_string(start);
    let e = u64_to_string(end);
    join("bytes=", s.as_str()).concat("-").concat(e.as_str())
}

} // verus!

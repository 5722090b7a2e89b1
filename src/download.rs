use vstd::prelude::*;
use crate::lifecycle::FULL_PROGRESS;

verus! {

/// The total size to measure progress against: the length the stream reports,
/// else the size the release advertised.
pub open spec fn progress_total(content_length: Option<u64>, advertised: Option<u64>) -> Option<u64> {
    match content_length {
        Some(t) => Some(t),
        None => advertised,
    }
}

/// Progress in hundredths of a percent: `downloaded / total * 100`, rounded
/// down and capped at completion. With no known (or a zero) total it stays 0.
pub open spec fn progress_of(downloaded: u64, total: Option<u64>) -> u64 {
    match total {
        Some(t) => if t == 0 {
            0
        } else {
            let raw = (downloaded as int * FULL_PROGRESS as int) / (t as int);
            if raw > FULL_PROGRESS as int {
                FULL_PROGRESS
            } else {
                raw as u64
            }
        },
        None => 0,
    }
}

/// Computes [`progress_of`].
pub fn progress_percent(downloaded: u64, total: Option<u64>) -> (r: u64)
    ensures
        r == progress_of(downloaded, total),
        r <= FULL_PROGRESS,
{
    match total {
        Some(t) => {
            if t == 0 {
                0
            } else {
                let scaled: u128 = downloaded as u128 * 10000u128;
                let raw: u128 = scaled / (t as u128);
                if raw > 10000u128 {
                    FULL_PROGRESS
                } else {
                    raw as u64
                }
            }
        },
        None => 0,
    }
}

/// Running byte count of one download.
pub struct DownloadProgress {
    /// Bytes received so far.
    pub bytes_downloaded: u64,
    /// Size the release advertised, if any.
    pub advertised_size: Option<u64>,
}

impl DownloadProgress {
    /// Nothing received yet.
    pub fn new(advertised_size: Option<u64>) -> (r: DownloadProgress)
        ensures
            r.bytes_downloaded == 0,
            r.advertised_size == advertised_size,
    {
        DownloadProgress { bytes_downloaded: 0, advertised_size }
    }

    /// Adds one chunk and returns the progress it brings the download to.
    pub fn add_chunk(&mut self, chunk_length: u64, content_length: Option<u64>) -> (r: u64)
        requires
            old(self).bytes_downloaded + chunk_length <= u64::MAX,
        ensures
            final(self).bytes_downloaded == old(self).bytes_downloaded + chunk_length,
            final(self).advertised_size == old(self).advertised_size,
            r == progress_of(
                final(self).bytes_downloaded,
                progress_total(content_length, old(self).advertised_size),
            ),
    {
        self.bytes_downloaded = self.bytes_downloaded + chunk_length;
        let total = match content_length {
            Some(t) => Some(t),
            None => self.advertised_size,
        };
        progress_percent(self.bytes_downloaded, total)
    }
}

} // verus!

//! Progress accounting for a streamed download. The caller reads the network
//! stream chunk by chunk and writes each chunk to disk; the byte counting,
//! the unknown-total policy, and the final statistics are decided here.

use vstd::prelude::*;

verus! {

/// Running progress of one download: bytes received so far, and the total
/// the server announced (0 when it announced none — an unknown total does
/// not fail the download).
#[derive(Clone, Copy, Debug, PartialEq, Eq, Structural)]
pub struct ProgressTracker {
    pub received: u64,
    pub total: u64,
}

/// What one finished download reports: bytes written and seconds elapsed.
#[derive(Clone, Copy, Debug, PartialEq, Eq, Structural)]
pub struct DownloadStats {
    pub bytes: u64,
    pub elapsed_secs: u64,
}

impl ProgressTracker {
    /// Start tracking a download; a server that reports no content length
    /// yields an unknown (zero) total rather than an error.
    pub fn new(content_length: Option<u64>) -> (r: ProgressTracker)
        ensures
            r.received == 0,
            r.total == (match content_length {
                Some(n) => n,
                None => 0u64,
            }),
    {
        ProgressTracker {
            received: 0,
            total: match content_length {
                Some(n) => n,
                None => 0,
            },
        }
    }

    /// Record one received chunk.
    pub fn record_chunk(&mut self, len: u64)
        requires
            old(self).received + len <= u64::MAX,
        ensures
            final(self).received == old(self).received + len,
            final(self).total == old(self).total,
    {
        self.received = self.received + len;
    }

    /// The statistics of the finished download.
    pub fn finish(&self, elapsed_secs: u64) -> (r: DownloadStats)
        ensures
            r.bytes == self.received,
            r.elapsed_secs == elapsed_secs,
    {
        DownloadStats { bytes: self.received, elapsed_secs }
    }
}

impl DownloadStats {
    /// Whole bytes per second, 0 when less than a second elapsed (matching
    /// the guard against dividing by a zero elapsed time).
    pub fn bytes_per_sec(&self) -> (r: u64)
        ensures
            r == (if self.elapsed_secs > 0 {
                self.bytes as int / self.elapsed_secs as int
            } else {
                0int
            }),
    {
        if self.elapsed_secs > 0 {
            self.bytes / self.elapsed_secs
        } else {
            0
        }
    }
}

} // verus!

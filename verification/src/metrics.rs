//! Counters for API usage and file processing.  Durations are carried in
//! milliseconds; additions saturate rather than wrap, so the counters are
//! total functions of what was recorded.

use vstd::prelude::*;

verus! {

/// `a + b`, stopping at the integer limit.
pub open spec fn sat_add(a: u64, b: u64) -> u64 {
    if a + b <= u64::MAX {
        (a + b) as u64
    } else {
        u64::MAX
    }
}

/// Add with saturation.
fn add_sat(a: u64, b: u64) -> (r: u64)
    ensures
        r == sat_add(a, b),
{
    if a > u64::MAX - b {
        u64::MAX
    } else {
        a + b
    }
}

/// Performance counters for API operations.
#[derive(Debug)]
pub struct APIMetrics {
    /// Number of successful API calls.
    pub successful_calls: u64,
    /// Number of failed API calls.
    pub failed_calls: u64,
    /// Total time spent on API calls, in milliseconds.
    pub total_duration_ms: u64,
    /// Average response time, in milliseconds.
    pub average_response_time_ms: u64,
    /// Total bytes uploaded.
    pub total_bytes_uploaded: u64,
    /// Total bytes downloaded.
    pub total_bytes_downloaded: u64,
    /// Number of retries performed.
    pub total_retries: u64,
    /// Rate limit hits.
    pub rate_limit_hits: u64,
}

impl APIMetrics {
    /// Record a successful API call.
    pub fn record_success(&mut self, duration_ms: u64, bytes_uploaded: u64, bytes_downloaded: u64)
        ensures
            final(self).successful_calls == sat_add(old(self).successful_calls, 1),
            final(self).failed_calls == old(self).failed_calls,
            final(self).total_duration_ms == sat_add(old(self).total_duration_ms, duration_ms),
            final(self).total_bytes_uploaded == sat_add(
                old(self).total_bytes_uploaded,
                bytes_uploaded,
            ),
            final(self).total_bytes_downloaded == sat_add(
                old(self).total_bytes_downloaded,
                bytes_downloaded,
            ),
            final(self).total_retries == old(self).total_retries,
            final(self).rate_limit_hits == old(self).rate_limit_hits,
            final(self).average_response_time_ms == spec_average(
                final(self).total_duration_ms,
                sat_add(final(self).successful_calls, final(self).failed_calls),
            ),
    {
        self.successful_calls = add_sat(self.successful_calls, 1);
        self.total_duration_ms = add_sat(self.total_duration_ms, duration_ms);
        self.total_bytes_uploaded = add_sat(self.total_bytes_uploaded, bytes_uploaded);
        self.total_bytes_downloaded = add_sat(self.total_bytes_downloaded, bytes_downloaded);
        self.update_average_response_time();
    }

    /// Record a failed API call.
    pub fn record_failure(&mut self, duration_ms: u64)
        ensures
            final(self).failed_calls == sat_add(old(self).failed_calls, 1),
            final(self).successful_calls == old(self).successful_calls,
            final(self).total_duration_ms == sat_add(old(self).total_duration_ms, duration_ms),
            final(self).total_bytes_uploaded == old(self).total_bytes_uploaded,
            final(self).total_bytes_downloaded == old(self).total_bytes_downloaded,
            final(self).total_retries == old(self).total_retries,
            final(self).rate_limit_hits == old(self).rate_limit_hits,
            final(self).average_response_time_ms == spec_average(
                final(self).total_duration_ms,
                sat_add(final(self).successful_calls, final(self).failed_calls),
            ),
    {
        self.failed_calls = add_sat(self.failed_calls, 1);
        self.total_duration_ms = add_sat(self.total_duration_ms, duration_ms);
        self.update_average_response_time();
    }

    /// Record a retry.
    pub fn record_retry(&mut self)
        ensures
            final(self).total_retries == sat_add(old(self).total_retries, 1),
            final(self).successful_calls == old(self).successful_calls,
            final(self).failed_calls == old(self).failed_calls,
            final(self).total_duration_ms == old(self).total_duration_ms,
            final(self).average_response_time_ms == old(self).average_response_time_ms,
            final(self).total_bytes_uploaded == old(self).total_bytes_uploaded,
            final(self).total_bytes_downloaded == old(self).total_bytes_downloaded,
            final(self).rate_limit_hits == old(self).rate_limit_hits,
    {
        self.total_retries = add_sat(self.total_retries, 1);
    }

    /// Record a rate limit hit.
    pub fn record_rate_limit_hit(&mut self)
        ensures
            final(self).rate_limit_hits == sat_add(old(self).rate_limit_hits, 1),
            final(self).successful_calls == old(self).successful_calls,
            final(self).failed_calls == old(self).failed_calls,
            final(self).total_duration_ms == old(self).total_duration_ms,
            final(self).average_response_time_ms == old(self).average_response_time_ms,
            final(self).total_bytes_uploaded == old(self).total_bytes_uploaded,
            final(self).total_bytes_downloaded == old(self).total_bytes_downloaded,
            final(self).total_retries == old(self).total_retries,
    {
        self.rate_limit_hits = add_sat(self.rate_limit_hits, 1);
    }

    /// Recompute the average response time from the totals.
    fn update_average_response_time(&mut self)
        ensures
            final(self).average_response_time_ms == spec_average(
                old(self).total_duration_ms,
                sat_add(old(self).successful_calls, old(self).failed_calls),
            ),
            final(self).successful_calls == old(self).successful_calls,
            final(self).failed_calls == old(self).failed_calls,
            final(self).total_duration_ms == old(self).total_duration_ms,
            final(self).total_bytes_uploaded == old(self).total_bytes_uploaded,
            final(self).total_bytes_downloaded == old(self).total_bytes_downloaded,
            final(self).total_retries == old(self).total_retries,
            final(self).rate_limit_hits == old(self).rate_limit_hits,
    {
        let total_calls = add_sat(self.successful_calls, self.failed_calls);
        if total_calls > 0 {
            self.average_response_time_ms = self.total_duration_ms / total_calls;
        } else {
            self.average_response_time_ms = 0;
        }
    }

    /// Get the total number of API calls.
    pub fn total_calls(&self) -> (r: u64)
        ensures
            r == sat_add(self.successful_calls, self.failed_calls),
    {
        add_sat(self.successful_calls, self.failed_calls)
    }

    /// Reset all counters.
    pub fn reset(&mut self)
        ensures
            final(self).successful_calls == 0,
            final(self).failed_calls == 0,
            final(self).total_duration_ms == 0,
            final(self).average_response_time_ms == 0,
            final(self).total_bytes_uploaded == 0,
            final(self).total_bytes_downloaded == 0,
            final(self).total_retries == 0,
            final(self).rate_limit_hits == 0,
    {
        self.successful_calls = 0;
        self.failed_calls = 0;
        self.total_duration_ms = 0;
        self.average_response_time_ms = 0;
        self.total_bytes_uploaded = 0;
        self.total_bytes_downloaded = 0;
        self.total_retries = 0;
        self.rate_limit_hits = 0;
    }
}

/// The average duration: the total over the count, zero while nothing was
/// recorded.
pub open spec fn spec_average(total_ms: u64, count: u64) -> int {
    if count > 0 {
        total_ms as int / count as int
    } else {
        0
    }
}

impl Default for APIMetrics {
    /// All counters start at zero.
    fn default() -> (r: Self)
        ensures
            r.successful_calls == 0,
            r.failed_calls == 0,
            r.total_duration_ms == 0,
            r.average_response_time_ms == 0,
            r.total_bytes_uploaded == 0,
            r.total_bytes_downloaded == 0,
            r.total_retries == 0,
            r.rate_limit_hits == 0,
    {
        APIMetrics {
            successful_calls: 0,
            failed_calls: 0,
            total_duration_ms: 0,
            average_response_time_ms: 0,
            total_bytes_uploaded: 0,
            total_bytes_downloaded: 0,
            total_retries: 0,
            rate_limit_hits: 0,
        }
    }
}

impl Clone for APIMetrics {
    /// A copy of all counters.
    fn clone(&self) -> (r: Self)
        ensures
            r == *self,
    {
        APIMetrics {
            successful_calls: self.successful_calls,
            failed_calls: self.failed_calls,
            total_duration_ms: self.total_duration_ms,
            average_response_time_ms: self.average_response_time_ms,
            total_bytes_uploaded: self.total_bytes_uploaded,
            total_bytes_downloaded: self.total_bytes_downloaded,
            total_retries: self.total_retries,
            rate_limit_hits: self.rate_limit_hits,
        }
    }
}

/// Counters for file processing.
#[derive(Debug)]
pub struct FileMetrics {
    /// Number of files processed.
    pub files_processed: u64,
    /// Total file size processed.
    pub total_file_size: u64,
    /// Average file size.
    pub average_file_size: u64,
    /// Total processing time, in milliseconds.
    pub total_processing_time_ms: u64,
    /// Average processing time per file, in milliseconds.
    pub average_processing_time_ms: u64,
}

impl FileMetrics {
    /// Record one processed file.
    pub fn record_file_processed(&mut self, file_size: u64, processing_time_ms: u64)
        ensures
            final(self).files_processed == sat_add(old(self).files_processed, 1),
            final(self).total_file_size == sat_add(old(self).total_file_size, file_size),
            final(self).total_processing_time_ms == sat_add(
                old(self).total_processing_time_ms,
                processing_time_ms,
            ),
            final(self).average_file_size == spec_average(
                final(self).total_file_size,
                final(self).files_processed,
            ),
            final(self).average_processing_time_ms == spec_average(
                final(self).total_processing_time_ms,
                final(self).files_processed,
            ),
    {
        self.files_processed = add_sat(self.files_processed, 1);
        self.total_file_size = add_sat(self.total_file_size, file_size);
        self.total_processing_time_ms = add_sat(self.total_processing_time_ms, processing_time_ms);
        if self.files_processed > 0 {
            self.average_file_size = self.total_file_size / self.files_processed;
            self.average_processing_time_ms = self.total_processing_time_ms
                / self.files_processed;
        }
    }
}

impl Default for FileMetrics {
    /// All counters start at zero.
    fn default() -> (r: Self)
        ensures
            r.files_processed == 0,
            r.total_file_size == 0,
            r.average_file_size == 0,
            r.total_processing_time_ms == 0,
            r.average_processing_time_ms == 0,
    {
        FileMetrics {
            files_processed: 0,
            total_file_size: 0,
            average_file_size: 0,
            total_processing_time_ms: 0,
            average_processing_time_ms: 0,
        }
    }
}

} // verus!

//! The time and size budget of one analysis.
use vstd::prelude::*;

verus! {

#[verifier::external_type_specification]
#[verifier::external_body]
pub struct ExInstant(std::time::Instant);

/// Relies on std::time::Instant::now: a reading of the monotonic clock, of which nothing is
/// assumed.
pub assume_specification[ std::time::Instant::now ]() -> std::time::Instant;

/// Relies on std::time::Instant::elapsed: the time passed since a reading, of which nothing
/// is assumed.
pub assume_specification[ std::time::Instant::elapsed ](
    instant: &std::time::Instant,
) -> core::time::Duration;

/// Relies on core::time::Duration::as_millis: the whole milliseconds of a duration, of which
/// nothing is assumed.
pub assume_specification[ core::time::Duration::as_millis ](d: &core::time::Duration) -> u128;

/// Why a budgeted analysis stopped.
#[derive(Debug, Clone)]
pub enum PerformanceError {
    /// More time passed than the budget allows.
    AnalysisTimeout { timeout_ms: u64 },
    /// The content is longer, in bytes, than the budget allows.
    ContentTooLarge { size: usize, limit: usize },
    /// Any other failure inside the analysis.
    MonitoringError(String),
}

/// Settings shared by every analysis; never changed once built.
#[derive(Debug, Clone)]
pub struct AnalysisConfig {
    /// Similarity, in hundredths, above which two payloads count as the same (informational).
    pub similarity_threshold_percent: u32,
    /// Time budget of one analysis, in milliseconds.
    pub analysis_timeout_ms: u64,
    /// Largest content, in bytes, that the budgeted analysis accepts.
    pub max_content_size: usize,
    /// Whether producer applications are detected from their markup.
    pub enable_app_detection: bool,
    /// Whether redundancy is scored.
    pub enable_redundancy_scoring: bool,
    /// Whether analyses report their timing.
    pub log_analysis_details: bool,
}

/// The content size limit of the default configuration: one mebibyte.
pub const DEFAULT_MAX_CONTENT_SIZE: usize = 1048576;

/// The time budget of the default configuration, in milliseconds.
pub const DEFAULT_TIMEOUT_MS: u64 = 200;

impl Default for AnalysisConfig {
    fn default() -> (r: AnalysisConfig)
        ensures
            r.similarity_threshold_percent == 95,
            r.analysis_timeout_ms == DEFAULT_TIMEOUT_MS,
            r.max_content_size == DEFAULT_MAX_CONTENT_SIZE,
            r.enable_app_detection,
            r.enable_redundancy_scoring,
            !r.log_analysis_details,
    {
        AnalysisConfig {
            similarity_threshold_percent: 95,
            analysis_timeout_ms: DEFAULT_TIMEOUT_MS,
            max_content_size: DEFAULT_MAX_CONTENT_SIZE,
            enable_app_detection: true,
            enable_redundancy_scoring: true,
            log_analysis_details: false,
        }
    }
}

/// `a + b`, or `u64::MAX` when the sum does not fit.
pub open spec fn saturating_sum(a: u64, b: u64) -> u64 {
    if a + b > u64::MAX {
        u64::MAX
    } else {
        (a + b) as u64
    }
}

/// The verdict of a timeout check: an error exactly when more time passed than allowed.
pub open spec fn timeout_result(elapsed_ms: u64, timeout_ms: u64) -> Result<(), PerformanceError> {
    if elapsed_ms > timeout_ms {
        Err(PerformanceError::AnalysisTimeout { timeout_ms })
    } else {
        Ok(())
    }
}

/// The verdict of a size check: an error exactly when the content is longer than the limit.
pub open spec fn size_result(size: usize, limit: usize) -> Result<(), PerformanceError> {
    if size > limit {
        Err(PerformanceError::ContentTooLarge { size, limit })
    } else {
        Ok(())
    }
}

/// Decides a timeout check from a clock reading.
pub fn timeout_verdict(elapsed_ms: u64, timeout_ms: u64) -> (r: Result<(), PerformanceError>)
    ensures
        r == timeout_result(elapsed_ms, timeout_ms),
{
    if elapsed_ms > timeout_ms {
        Err(PerformanceError::AnalysisTimeout { timeout_ms })
    } else {
        Ok(())
    }
}

/// The time left of a budget after `elapsed_ms`, never below zero.
pub fn remaining_after(elapsed_ms: u64, timeout_ms: u64) -> (r: u64)
    ensures
        r == if elapsed_ms >= timeout_ms { 0 } else { (timeout_ms - elapsed_ms) as u64 },
{
    if elapsed_ms >= timeout_ms {
        0
    } else {
        timeout_ms - elapsed_ms
    }
}

/// Whole milliseconds since `start`, saturated to the range of `u64`.
pub(crate) fn elapsed_ms(start: &std::time::Instant) -> u64 {
    let d = start.elapsed();
    let ms = d.as_millis();
    if ms > u64::MAX as u128 {
        u64::MAX
    } else {
        ms as u64
    }
}

/// The budget of one analysis: a start time, a time limit and a size limit, with counters of
/// completed analyses.
#[derive(Debug)]
pub struct PerformanceMonitor {
    start_time: std::time::Instant,
    timeout_ms: u64,
    max_content_size: usize,
    analysis_count: u64,
    total_time_ms: u64,
}

impl PerformanceMonitor {
    /// The time limit, in milliseconds.
    pub closed spec fn timeout_of(&self) -> u64 {
        self.timeout_ms
    }

    /// The size limit, in bytes.
    pub closed spec fn size_limit_of(&self) -> usize {
        self.max_content_size
    }

    /// How many analyses were recorded as complete.
    pub closed spec fn count_of(&self) -> u64 {
        self.analysis_count
    }

    /// The total time of the completed analyses, in milliseconds.
    pub closed spec fn total_of(&self) -> u64 {
        self.total_time_ms
    }

    /// Starts a budget now, with the limits of `config`.
    pub fn new(config: &AnalysisConfig) -> (r: PerformanceMonitor)
        ensures
            r.timeout_of() == config.analysis_timeout_ms,
            r.size_limit_of() == config.max_content_size,
            r.count_of() == 0,
            r.total_of() == 0,
    {
        PerformanceMonitor {
            start_time: std::time::Instant::now(),
            timeout_ms: config.analysis_timeout_ms,
            max_content_size: config.max_content_size,
            analysis_count: 0,
            total_time_ms: 0,
        }
    }

    /// Fails with `AnalysisTimeout` once more time than the limit has passed since the start.
    /// Whether it fails depends on the clock; the error, when it comes, names the limit.
    pub fn check_timeout(&self) -> (r: Result<(), PerformanceError>)
        ensures
            r is Err ==> r == Err::<(), PerformanceError>(
                PerformanceError::AnalysisTimeout { timeout_ms: self.timeout_of() },
            ),
    {
        timeout_verdict(elapsed_ms(&self.start_time), self.timeout_ms)
    }

    /// Fails with `ContentTooLarge` exactly when `content` is longer, in bytes, than the limit.
    pub fn check_content_size(&self, content: &str) -> (r: Result<(), PerformanceError>)
        ensures
            r == size_result(content.len(), self.size_limit_of()),
    {
        let size = content.len();
        if size > self.max_content_size {
            return Err(PerformanceError::ContentTooLarge { size, limit: self.max_content_size });
        }
        Ok(())
    }

    /// The milliseconds left of the budget; zero once it is spent.
    pub fn remaining_time_ms(&self) -> (r: u64)
        ensures
            r <= self.timeout_of(),
    {
        remaining_after(elapsed_ms(&self.start_time), self.timeout_ms)
    }

    /// Counts one more completed analysis and adds `elapsed_ms` to the total; both counters
    /// saturate at `u64::MAX`.
    pub fn record_completion_after(&mut self, elapsed_ms: u64)
        ensures
            final(self).count_of() == saturating_sum(old(self).count_of(), 1),
            final(self).total_of() == saturating_sum(old(self).total_of(), elapsed_ms),
            final(self).timeout_of() == old(self).timeout_of(),
            final(self).size_limit_of() == old(self).size_limit_of(),
    {
        self.analysis_count = self.analysis_count.saturating_add(1);
        self.total_time_ms = self.total_time_ms.saturating_add(elapsed_ms);
    }

    /// Counts one more completed analysis and adds the time since the start to the total.
    pub fn record_completion(&mut self)
        ensures
            final(self).count_of() == saturating_sum(old(self).count_of(), 1),
            exists|elapsed_ms: u64|
                final(self).total_of() == #[trigger] saturating_sum(old(self).total_of(), elapsed_ms),
            final(self).timeout_of() == old(self).timeout_of(),
            final(self).size_limit_of() == old(self).size_limit_of(),
    {
        let elapsed = elapsed_ms(&self.start_time);
        self.record_completion_after(elapsed);
    }

    /// How many analyses were recorded as complete.
    pub fn analysis_count(&self) -> (r: u64)
        ensures
            r == self.count_of(),
    {
        self.analysis_count
    }

    /// The total time of the completed analyses, in milliseconds.
    pub fn total_time_ms(&self) -> (r: u64)
        ensures
            r == self.total_of(),
    {
        self.total_time_ms
    }

    /// The time limit, in milliseconds.
    pub fn timeout_ms(&self) -> (r: u64)
        ensures
            r == self.timeout_of(),
    {
        self.timeout_ms
    }

    /// The size limit, in bytes.
    pub fn max_content_size(&self) -> (r: usize)
        ensures
            r == self.size_limit_of(),
    {
        self.max_content_size
    }
}

} // verus!

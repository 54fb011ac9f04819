//! Timed runs of the analysis on generated content.
use vstd::prelude::*;
use crate::analyzer::OptimizedContentAnalyzer;
use crate::budget::{AnalysisConfig, PerformanceError, elapsed_ms};
use crate::text::{append_str, decimal, decimal_text};

verus! {

/// A human description of a budget failure.
pub open spec fn error_message(e: PerformanceError) -> Seq<char> {
    match e {
        PerformanceError::AnalysisTimeout { timeout_ms } => "analysis timed out: over "@ + decimal(
            timeout_ms as nat,
        ) + "ms"@,
        PerformanceError::ContentTooLarge { size, limit } => "content too large: "@ + decimal(
            size as nat,
        ) + " bytes over the limit of "@ + decimal(limit as nat),
        PerformanceError::MonitoringError(m) => "monitoring error: "@ + m@,
    }
}

impl PerformanceError {
    /// A human description of the failure.
    pub fn message(&self) -> (r: String)
        ensures
            r@ == error_message(*self),
    {
        match self {
            PerformanceError::AnalysisTimeout { timeout_ms } => {
                let mut r = "analysis timed out: over ".to_owned();
                append_str(&mut r, decimal_text(*timeout_ms).as_str());
                append_str(&mut r, "ms");
                r
            },
            PerformanceError::ContentTooLarge { size, limit } => {
                let mut r = "content too large: ".to_owned();
                append_str(&mut r, decimal_text(*size as u64).as_str());
                append_str(&mut r, " bytes over the limit of ");
                append_str(&mut r, decimal_text(*limit as u64).as_str());
                r
            },
            PerformanceError::MonitoringError(m) => {
                let mut r = "monitoring error: ".to_owned();
                append_str(&mut r, m.as_str());
                r
            },
        }
    }
}

/// The result of one timed run.
#[derive(Debug, Clone)]
pub struct PerformanceBenchmark {
    pub test_name: String,
    pub content_size: usize,
    pub processing_time_ms: u64,
    pub success: bool,
    pub error_message: Option<String>,
}

impl PerformanceBenchmark {
    /// A run not yet recorded: no time, no success, no error.
    pub fn new(test_name: String, content_size: usize) -> (r: PerformanceBenchmark)
        ensures
            r.test_name == test_name,
            r.content_size == content_size,
            r.processing_time_ms == 0,
            !r.success,
            r.error_message is None,
    {
        PerformanceBenchmark {
            test_name,
            content_size,
            processing_time_ms: 0,
            success: false,
            error_message: None,
        }
    }

    /// Records a successful run and its time.
    pub fn record_success(&mut self, processing_time_ms: u64)
        ensures
            final(self).test_name == old(self).test_name,
            final(self).content_size == old(self).content_size,
            final(self).processing_time_ms == processing_time_ms,
            final(self).success,
            final(self).error_message is None,
    {
        self.processing_time_ms = processing_time_ms;
        self.success = true;
        self.error_message = None;
    }

    /// Records a failed run, its time and its error.
    pub fn record_failure(&mut self, processing_time_ms: u64, error: String)
        ensures
            final(self).test_name == old(self).test_name,
            final(self).content_size == old(self).content_size,
            final(self).processing_time_ms == processing_time_ms,
            !final(self).success,
            final(self).error_message == Some(error),
    {
        self.processing_time_ms = processing_time_ms;
        self.success = false;
        self.error_message = Some(error);
    }
}

/// `unit` written `n` times.
pub open spec fn repeated(unit: Seq<char>, n: nat) -> Seq<char>
    decreases n,
{
    if n == 0 {
        seq![]
    } else {
        repeated(unit, (n - 1) as nat) + unit
    }
}

/// `unit` written `n` times.
pub fn repeat_str(unit: &str, n: usize) -> (r: String)
    ensures
        r@ == repeated(unit@, n as nat),
{
    let mut r = String::new();
    let mut i: usize = 0;
    while i < n
        invariant
            i <= n,
            r@ == repeated(unit@, i as nat),
        decreases n - i,
    {
        append_str(&mut r, unit);
        i += 1;
    }
    r
}

/// A run that passed exactly when its error is absent.
pub open spec fn settled(b: PerformanceBenchmark) -> bool {
    b.success <==> b.error_message is None
}

/// A set of timed runs of one analyzer.
pub struct PerformanceBenchmarkSuite {
    config: AnalysisConfig,
    analyzer: OptimizedContentAnalyzer,
}

impl PerformanceBenchmarkSuite {
    /// The configuration of the suite.
    pub closed spec fn config_of(&self) -> AnalysisConfig {
        self.config
    }

    /// A suite whose analyzer uses `config`.
    pub fn new(config: AnalysisConfig) -> (r: PerformanceBenchmarkSuite)
        ensures
            r.config_of() == config,
    {
        let analyzer = OptimizedContentAnalyzer::new(config.clone());
        PerformanceBenchmarkSuite { config, analyzer }
    }

    /// The configuration of the suite.
    pub fn config(&self) -> (r: &AnalysisConfig)
        ensures
            *r == self.config_of(),
    {
        &self.config
    }

    /// Times the similarity estimate of `html` against `text`.
    fn time_similarity(&self, name: &str, size: usize, html: &str, text: &str) -> (r:
        PerformanceBenchmark)
        ensures
            r.test_name@ == name@,
            r.content_size == size,
            settled(r),
    {
        let mut benchmark = PerformanceBenchmark::new(name.to_owned(), size);
        let start = std::time::Instant::now();
        let analyzer = &self.analyzer;
        let outcome = analyzer.analyze_with_monitoring(
            html,
            |content: &str, monitor: &crate::budget::PerformanceMonitor|
                analyzer.calculate_similarity_optimized(content, text, monitor),
        );
        match outcome {
            Ok(_) => benchmark.record_success(elapsed_ms(&start)),
            Err(e) => benchmark.record_failure(elapsed_ms(&start), e.message()),
        }
        benchmark
    }

    /// Times producer detection on `html`.
    fn time_detection(&self, name: &str, size: usize, html: &str) -> (r: PerformanceBenchmark)
        ensures
            r.test_name@ == name@,
            r.content_size == size,
            settled(r),
    {
        let mut benchmark = PerformanceBenchmark::new(name.to_owned(), size);
        let start = std::time::Instant::now();
        let analyzer = &self.analyzer;
        let outcome = analyzer.analyze_with_monitoring(
            html,
            |content: &str, monitor: &crate::budget::PerformanceMonitor|
                analyzer.detect_application_optimized(content, monitor),
        );
        match outcome {
            Ok(_) => benchmark.record_success(elapsed_ms(&start)),
            Err(e) => benchmark.record_failure(elapsed_ms(&start), e.message()),
        }
        benchmark
    }

    /// Runs the five timed runs: small, medium and large content, similarity, and producer
    /// detection.
    pub fn run_benchmarks(&self) -> (r: Vec<PerformanceBenchmark>)
        ensures
            r@.len() == 5,
            r@[0].test_name@ == "Small Content"@ && r@[0].content_size == 1000,
            r@[1].test_name@ == "Medium Content"@ && r@[1].content_size == 50000,
            r@[2].test_name@ == "Large Content"@ && r@[2].content_size == 500000,
            r@[3].test_name@ == "Similarity Calculation"@ && r@[3].content_size == 10000,
            r@[4].test_name@ == "App Detection"@ && r@[4].content_size == 5000,
            forall|i: int| 0 <= i < r@.len() ==> settled(#[trigger] r@[i]),
    {
        let mut results: Vec<PerformanceBenchmark> = Vec::new();
        let small = repeat_str("a", 1000);
        results.push(self.time_similarity("Small Content", 1000, small.as_str(), "test"));
        let medium = repeat_str("a", 50000);
        results.push(self.time_similarity("Medium Content", 50000, medium.as_str(), "test"));
        let large = repeat_str("a", 500000);
        results.push(self.time_similarity("Large Content", 500000, large.as_str(), "test"));
        let text = repeat_str("test content ", 1000);
        let mut html = "<div>".to_owned();
        append_str(&mut html, text.as_str());
        append_str(&mut html, "</div>");
        results.push(
            self.time_similarity("Similarity Calculation", 10000, html.as_str(), text.as_str()),
        );
        let mut chat = "<div data-testid=\"conversation-turn\" class=\"markdown prose w-full\">".to_owned();
        append_str(&mut chat, repeat_str("content ", 500).as_str());
        append_str(&mut chat, "</div>");
        results.push(self.time_detection("App Detection", 5000, chat.as_str()));
        results
    }
}

} // verus!

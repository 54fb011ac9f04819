//! The budgeted analysis of an HTML payload against its text, and the choice of the format
//! to keep.
use vstd::prelude::*;
use vstd::utf8::encode_utf8;
use crate::budget::{AnalysisConfig, PerformanceError, PerformanceMonitor};
use crate::decision::{
    DetectedProducer, HtmlAnalysisResult, fallback_html_decision, fallback_prefers_html,
    make_html_decision, prefers_html,
};
use crate::fraction::Fraction;
use crate::scoring::{
    ProducerKind, calculate_redundancy_score_optimized, count_occurrences, detect_producer,
    detect_producer_in, features_in, features_of, finish_redundancy, occurrences, producer_name,
    redundancy_score, value_score, value_score_of,
};
use crate::similarity::{similarity_exec, similarity_of, timeout_error, value_or_timeout};
use crate::text::{chars_of, lower_of, to_lower};

verus! {

/// The confidence given to a producer detected from its markup, in hundredths.
pub const DETECTION_CONFIDENCE: u32 = 80;

/// The length in bytes of the UTF-8 form of `s`, as `str::len` reports it.
pub open spec fn byte_len(s: Seq<char>) -> u64 {
    (encode_utf8(s).len() as usize) as u64
}

/// The producer family of lower-cased HTML, when detection is enabled. Detection lower-cases
/// its input once more.
pub open spec fn producer_detected(h: Seq<char>, enabled: bool) -> Option<ProducerKind> {
    if enabled {
        detect_producer(lower_of(h))
    } else {
        None
    }
}

/// The analysis of lower-cased HTML `h` against lower-cased text `t`.
pub open spec fn analysis_of(h: Seq<char>, t: Seq<char>, detection: bool) -> HtmlAnalysisResult {
    let sim = similarity_of(h, t);
    let hl = byte_len(h);
    let tl = byte_len(t);
    let f = features_of(h);
    let p = producer_detected(h, detection);
    HtmlAnalysisResult {
        similarity: sim,
        tag_density: if tl > 0 {
            Fraction { num: occurrences(h, "<"@) as u64, den: tl }
        } else {
            Fraction::zero()
        },
        html_text_ratio: Fraction { num: hl, den: if tl > 0 { tl } else { 1 } },
        value_score: value_score(f, sim),
        redundancy_score: redundancy_score(h, p, sim),
        features: f,
        detected: match p {
            Some(k) => Some(DetectedProducer { kind: k, confidence_percent: DETECTION_CONFIDENCE }),
            None => None,
        },
        office_level: None,
    }
}

/// The decision that the full analysis of `html` and `text` gives, both lower-cased first.
pub open spec fn standard_decision(config: AnalysisConfig, html: Seq<char>, text: Seq<char>) -> bool {
    prefers_html(analysis_of(lower_of(html), lower_of(text), config.enable_app_detection))
}

/// The decision that the fallback gives for `html`.
pub open spec fn fallback_decision(html: Seq<char>) -> bool {
    fallback_prefers_html(lower_of(html))
}

/// The decision taken once the budgeted analysis has ended: its own verdict, the fallback
/// after a timeout or an oversized payload, and text after any other failure.
pub open spec fn outcome_decision(outcome: Result<bool, PerformanceError>, html: Seq<char>) -> bool {
    match outcome {
        Ok(d) => d,
        Err(PerformanceError::AnalysisTimeout { .. }) => fallback_decision(html),
        Err(PerformanceError::ContentTooLarge { .. }) => fallback_decision(html),
        Err(PerformanceError::MonitoringError(_)) => false,
    }
}

/// Either payload is larger than the budget allows.
pub open spec fn oversized(config: AnalysisConfig, html: &str, text: &str) -> bool {
    html.len() > config.max_content_size || text.len() > config.max_content_size
}

/// What `should_prefer_html` may answer: the fallback's verdict or the full analysis's, and
/// the fallback's whenever a payload is oversized.
pub open spec fn admissible_verdict(config: AnalysisConfig, html: &str, text: &str, r: bool) -> bool {
    &&& (r == fallback_decision(html@) || r == standard_decision(config, html@, text@))
    &&& (oversized(config, html, text) ==> r == fallback_decision(html@))
}

/// The decision taken once the budgeted analysis has ended; `true` means HTML.
pub fn decision_from_outcome(outcome: &Result<bool, PerformanceError>, html: &str, text: &str) -> (r:
    bool)
    ensures
        r == outcome_decision(*outcome, html@),
{
    match outcome {
        Ok(d) => *d,
        Err(PerformanceError::AnalysisTimeout { .. }) => fallback_html_decision(html, text),
        Err(PerformanceError::ContentTooLarge { .. }) => fallback_html_decision(html, text),
        Err(PerformanceError::MonitoringError(_)) => false,
    }
}

/// The analyzer: a configuration that every analysis reads and none changes.
pub struct OptimizedContentAnalyzer {
    config: AnalysisConfig,
}

impl OptimizedContentAnalyzer {
    /// The configuration.
    pub closed spec fn config_of(&self) -> AnalysisConfig {
        self.config
    }

    /// An analyzer with the given configuration.
    pub fn new(config: AnalysisConfig) -> (r: OptimizedContentAnalyzer)
        ensures
            r.config_of() == config,
    {
        OptimizedContentAnalyzer { config }
    }

    /// The configuration.
    pub fn config(&self) -> (r: &AnalysisConfig)
        ensures
            *r == self.config_of(),
    {
        &self.config
    }

    /// The similarity of an HTML payload and a text payload, both lower-cased by the caller.
    pub fn calculate_similarity_optimized(
        &self,
        html: &str,
        text: &str,
        monitor: &PerformanceMonitor,
    ) -> (r: Result<Fraction, PerformanceError>)
        ensures
            value_or_timeout(r, similarity_of(html@, text@), monitor),
    {
        let h = chars_of(html);
        let t = chars_of(text);
        similarity_exec(&h, &t, monitor)
    }

    /// The producer family of `html`, lower-cased here, when detection is enabled.
    fn producer_of(&self, html: &str, monitor: &PerformanceMonitor) -> (r: Result<
        Option<ProducerKind>,
        PerformanceError,
    >)
        ensures
            value_or_timeout(r, producer_detected(html@, self.config.enable_app_detection), monitor),
    {
        monitor.check_timeout()?;
        if !self.config.enable_app_detection {
            return Ok(None);
        }
        let lowered = to_lower(html);
        let h = chars_of(lowered.as_str());
        detect_producer_in(&h, monitor)
    }

    /// The name of the producer family of `html`, when detection is enabled and one is found.
    pub fn detect_application_optimized(&self, html: &str, monitor: &PerformanceMonitor) -> (r:
        Result<Option<String>, PerformanceError>)
        ensures
            match r {
                Ok(Some(name)) => exists|k: ProducerKind|
                    producer_detected(html@, self.config_of().enable_app_detection) == Some(k)
                        && name@ == producer_name(k),
                Ok(None) => producer_detected(html@, self.config_of().enable_app_detection) is None,
                Err(e) => e == timeout_error(monitor),
            },
    {
        match self.producer_of(html, monitor)? {
            Some(k) => Ok(Some(k.name().to_owned())),
            None => Ok(None),
        }
    }

    /// The analysis of lower-cased HTML against lower-cased text, polling the budget.
    pub fn analyze_html_content_optimized(
        &self,
        html_lower: &str,
        text_lower: &str,
        monitor: &PerformanceMonitor,
    ) -> (r: Result<HtmlAnalysisResult, PerformanceError>)
        ensures
            value_or_timeout(
                r,
                analysis_of(html_lower@, text_lower@, self.config_of().enable_app_detection),
                monitor,
            ),
    {
        monitor.check_timeout()?;
        let h = chars_of(html_lower);
        let t = chars_of(text_lower);
        let html_length = html_lower.len() as u64;
        let text_length = text_lower.len() as u64;
        let open_bracket = chars_of("<");
        let tag_count = count_occurrences(&h, &open_bracket);
        let similarity = similarity_exec(&h, &t, monitor)?;
        monitor.check_timeout()?;
        let tag_density = if text_length > 0 {
            Fraction { num: tag_count as u64, den: text_length }
        } else {
            Fraction::new_zero()
        };
        let html_text_ratio = Fraction {
            num: html_length,
            den: if text_length > 0 { text_length } else { 1 },
        };
        let features = features_in(&h, monitor)?;
        monitor.check_timeout()?;
        let value = value_score_of(&features, &similarity);
        let detected = self.producer_of(html_lower, monitor)?;
        monitor.check_timeout()?;
        let base = calculate_redundancy_score_optimized(&h, detected, monitor)?;
        let redundancy = finish_redundancy(base, detected, &similarity);
        let producer = match detected {
            Some(k) => Some(DetectedProducer { kind: k, confidence_percent: DETECTION_CONFIDENCE }),
            None => None,
        };
        Ok(HtmlAnalysisResult {
            similarity,
            tag_density,
            html_text_ratio,
            value_score: value,
            redundancy_score: redundancy,
            features,
            detected: producer,
            office_level: None,
        })
    }

    /// The budgeted decision: fails when a payload is too large or time runs out, and gives
    /// the full analysis's verdict otherwise.
    pub fn analyze_budgeted(&self, html: &str, text: &str) -> (r: Result<bool, PerformanceError>)
        ensures
            html.len() > self.config_of().max_content_size ==> r == Err::<bool, PerformanceError>(
                PerformanceError::ContentTooLarge {
                    size: html.len(),
                    limit: self.config_of().max_content_size,
                },
            ),
            html.len() <= self.config_of().max_content_size && text.len()
                > self.config_of().max_content_size ==> r == Err::<bool, PerformanceError>(
                PerformanceError::ContentTooLarge {
                    size: text.len(),
                    limit: self.config_of().max_content_size,
                },
            ),
            match r {
                Ok(d) => d == standard_decision(self.config_of(), html@, text@),
                Err(e) => (e is ContentTooLarge && oversized(self.config_of(), html, text))
                    || e == PerformanceError::AnalysisTimeout {
                    timeout_ms: self.config_of().analysis_timeout_ms,
                },
            },
    {
        let mut monitor = PerformanceMonitor::new(&self.config);
        monitor.check_content_size(html)?;
        monitor.check_content_size(text)?;
        let html_lower = to_lower(html);
        let text_lower = to_lower(text);
        let analysis = self.analyze_html_content_optimized(
            html_lower.as_str(),
            text_lower.as_str(),
            &monitor,
        )?;
        let decision = make_html_decision(&analysis);
        monitor.record_completion();
        Ok(decision)
    }

    /// Whether HTML should be kept rather than text: the budgeted analysis decides when it
    /// finishes, and the fallback when it runs out of time or a payload is too large.
    pub fn should_prefer_html(&self, html_content: &str, text_content: &str) -> (r: bool)
        ensures
            admissible_verdict(self.config_of(), html_content, text_content, r),
    {
        let outcome = self.analyze_budgeted(html_content, text_content);
        decision_from_outcome(&outcome, html_content, text_content)
    }
}

} // verus!

verus! {

/// A clipboard format that can be kept.
#[derive(Debug, Clone, Copy, PartialEq, Eq, Structural)]
pub enum ContentFormat {
    Files,
    Image,
    Html,
    Text,
    Rtf,
}

impl ContentFormat {
    /// The content-type tag under which records of this format are stored.
    pub fn name(&self) -> (r: &'static str)
        ensures
            r@ == format_name(*self),
    {
        match self {
            ContentFormat::Files => "files",
            ContentFormat::Image => "image",
            ContentFormat::Html => "html",
            ContentFormat::Text => "text",
            ContentFormat::Rtf => "rtf",
        }
    }
}

/// The content-type tag of a format.
pub open spec fn format_name(f: ContentFormat) -> Seq<char> {
    match f {
        ContentFormat::Files => "files"@,
        ContentFormat::Image => "image"@,
        ContentFormat::Html => "html"@,
        ContentFormat::Text => "text"@,
        ContentFormat::Rtf => "rtf"@,
    }
}

/// Which of HTML and text takes the middle place: the analysis's verdict when both are
/// available and both could be read; the one that could be read when only one could; HTML when
/// neither could; the available one when only one is available.
pub open spec fn html_text_slot(
    has_html: bool,
    has_text: bool,
    html_read: bool,
    text_read: bool,
    prefer_html: bool,
) -> Option<ContentFormat> {
    if has_html && has_text {
        if html_read && text_read {
            Some(if prefer_html { ContentFormat::Html } else { ContentFormat::Text })
        } else if !html_read && text_read {
            Some(ContentFormat::Text)
        } else {
            Some(ContentFormat::Html)
        }
    } else if has_html {
        Some(ContentFormat::Html)
    } else if has_text {
        Some(ContentFormat::Text)
    } else {
        None
    }
}

/// The order in which formats are tried: files, image, the HTML-or-text slot, rtf, each only
/// when present.
pub open spec fn priority_order(
    has_files: bool,
    has_image: bool,
    middle: Option<ContentFormat>,
    has_rtf: bool,
) -> Seq<ContentFormat> {
    (if has_files { seq![ContentFormat::Files] } else { seq![] }) + (if has_image {
        seq![ContentFormat::Image]
    } else {
        seq![]
    }) + (match middle {
        Some(f) => seq![f],
        None => seq![],
    }) + (if has_rtf { seq![ContentFormat::Rtf] } else { seq![] })
}

/// `order` is the order of formats to try when the analysis's verdict is `p`, and `p` is a
/// verdict that the analysis may give whenever both HTML and text were read.
pub open spec fn priority_for(
    config: AnalysisConfig,
    has_files: bool,
    has_image: bool,
    has_html: bool,
    has_text: bool,
    has_rtf: bool,
    html_content: Option<&str>,
    text_content: Option<&str>,
    p: bool,
    order: Seq<ContentFormat>,
) -> bool {
    &&& order == priority_order(
        has_files,
        has_image,
        html_text_slot(has_html, has_text, html_content is Some, text_content is Some, p),
        has_rtf,
    )
    &&& (has_html && has_text && html_content is Some && text_content is Some ==> admissible_verdict(
        config,
        html_content->0,
        text_content->0,
        p,
    ))
}

/// The slot of HTML and text, given the verdict of the analysis.
pub fn choose_html_or_text(
    has_html: bool,
    has_text: bool,
    html_read: bool,
    text_read: bool,
    prefer_html: bool,
) -> (r: Option<ContentFormat>)
    ensures
        r == html_text_slot(has_html, has_text, html_read, text_read, prefer_html),
{
    if has_html && has_text {
        if html_read && text_read {
            Some(if prefer_html { ContentFormat::Html } else { ContentFormat::Text })
        } else if !html_read && text_read {
            Some(ContentFormat::Text)
        } else {
            Some(ContentFormat::Html)
        }
    } else if has_html {
        Some(ContentFormat::Html)
    } else if has_text {
        Some(ContentFormat::Text)
    } else {
        None
    }
}

/// The formats to try, in order, given the slot of HTML and text.
pub fn order_formats(has_files: bool, has_image: bool, middle: Option<ContentFormat>, has_rtf: bool) -> (r:
    Vec<ContentFormat>)
    ensures
        r@ == priority_order(has_files, has_image, middle, has_rtf),
{
    let mut r: Vec<ContentFormat> = Vec::new();
    if has_files {
        r.push(ContentFormat::Files);
    }
    if has_image {
        r.push(ContentFormat::Image);
    }
    if let Some(f) = middle {
        r.push(f);
    }
    if has_rtf {
        r.push(ContentFormat::Rtf);
    }
    assert(r@ =~= priority_order(has_files, has_image, middle, has_rtf));
    r
}

impl OptimizedContentAnalyzer {
    /// The formats to try, highest priority first. `html_content` and `text_content` are what
    /// reading HTML and text gave (`None` when the read failed); they are looked at only when
    /// both formats are available, and the analysis runs only when both were read.
    pub fn determine_content_priority(
        &self,
        has_files: bool,
        has_image: bool,
        has_html: bool,
        has_text: bool,
        has_rtf: bool,
        html_content: Option<&str>,
        text_content: Option<&str>,
    ) -> (r: Vec<ContentFormat>)
        ensures
            exists|p: bool|
                #[trigger] priority_for(
                    self.config_of(),
                    has_files,
                    has_image,
                    has_html,
                    has_text,
                    has_rtf,
                    html_content,
                    text_content,
                    p,
                    r@,
                ),
    {
        let prefer = if has_html && has_text && html_content.is_some() && text_content.is_some() {
            self.should_prefer_html(html_content.unwrap(), text_content.unwrap())
        } else {
            true
        };
        let middle = choose_html_or_text(
            has_html,
            has_text,
            html_content.is_some(),
            text_content.is_some(),
            prefer,
        );
        let r = order_formats(has_files, has_image, middle, has_rtf);
        assert(priority_for(
            self.config_of(),
            has_files,
            has_image,
            has_html,
            has_text,
            has_rtf,
            html_content,
            text_content,
            prefer,
            r@,
        ));
        r
    }

    /// Runs `analysis_fn` on `content` under a fresh budget, after checking the content's
    /// size; a completed analysis is counted.
    pub fn analyze_with_monitoring<F, R>(&self, content: &str, analysis_fn: F) -> (r: Result<
        R,
        PerformanceError,
    >) where F: FnOnce(&str, &PerformanceMonitor) -> Result<R, PerformanceError>
        requires
            forall|m: &PerformanceMonitor| analysis_fn.requires((content, m)),
        ensures
            content.len() > self.config_of().max_content_size ==> r == Err::<R, PerformanceError>(
                PerformanceError::ContentTooLarge {
                    size: content.len(),
                    limit: self.config_of().max_content_size,
                },
            ),
            content.len() <= self.config_of().max_content_size ==> exists|m: &PerformanceMonitor|
                {
                    &&& m.timeout_of() == self.config_of().analysis_timeout_ms
                    &&& m.size_limit_of() == self.config_of().max_content_size
                    &&& analysis_fn.ensures((content, m), r)
                },
    {
        let mut monitor = PerformanceMonitor::new(&self.config);
        monitor.check_content_size(content)?;
        let result = analysis_fn(content, &monitor);
        match result {
            Ok(v) => {
                monitor.record_completion();
                Ok(v)
            },
            Err(e) => Err(e),
        }
    }
}

} // verus!

//! The layered HTML-versus-text policy and its constant-time fallback.
use vstd::prelude::*;
use crate::fraction::Fraction;
use crate::scoring::{HtmlFeatures, ProducerKind};
use crate::text::{chars_of, contains_seq, contains_str, lower_of, to_lower};

verus! {

/// A detected producer with the confidence of the detection, in hundredths.
#[derive(Debug, Clone, Copy, PartialEq, Eq, Structural)]
pub struct DetectedProducer {
    pub kind: ProducerKind,
    /// Confidence in hundredths, 0..=100.
    pub confidence_percent: u32,
}

/// How redundant office-suite markup is, when a detailed office analysis is available.
#[derive(Debug, Clone, Copy, PartialEq, Eq, Structural)]
pub enum OfficeRedundancyLevel {
    NoRedundancy,
    Low,
    Medium,
    High,
}

/// What the analysis of an HTML payload against its text found. Scores are in tenths.
#[derive(Debug, Clone, Copy, PartialEq, Eq, Structural)]
pub struct HtmlAnalysisResult {
    /// Similarity of the HTML's text to the plain text, in 0..=1.
    pub similarity: Fraction,
    /// Tags per byte of text.
    pub tag_density: Fraction,
    /// HTML length over text length, both in bytes.
    pub html_text_ratio: Fraction,
    /// Value score, 0..=100 tenths.
    pub value_score: u32,
    /// Redundancy score, 0..=100 tenths.
    pub redundancy_score: u32,
    pub features: HtmlFeatures,
    pub detected: Option<DetectedProducer>,
    pub office_level: Option<OfficeRedundancyLevel>,
}

/// Whether the producer rules ask for text: a chat assistant at confidence above 0.7 with
/// similarity above 0.8; an office suite by its redundancy level, or without one at
/// confidence above 0.8 and similarity above 0.9; a native editor at confidence above 0.9,
/// similarity above 0.95 and value below 2.0.
pub open spec fn producer_prefers_text(a: HtmlAnalysisResult) -> bool {
    match a.detected {
        Some(d) => match d.kind {
            ProducerKind::ChatAssistant => d.confidence_percent > 70 && a.similarity.exceeds(8, 10),
            ProducerKind::OfficeSuite => match a.office_level {
                Some(OfficeRedundancyLevel::High) => a.similarity.exceeds(85, 100),
                Some(OfficeRedundancyLevel::Medium) => a.similarity.exceeds(9, 10) && a.value_score < 30,
                Some(OfficeRedundancyLevel::Low) => a.similarity.exceeds(95, 100) && a.value_score < 20,
                Some(OfficeRedundancyLevel::NoRedundancy) => false,
                None => d.confidence_percent > 80 && a.similarity.exceeds(9, 10),
            },
            ProducerKind::NativeEcosystemEditor => d.confidence_percent > 90 && a.similarity.exceeds(
                95,
                100,
            ) && a.value_score < 20,
            ProducerKind::Unknown => false,
        },
        None => false,
    }
}

/// Value minus redundancy, in tenths.
pub open spec fn net_score(a: HtmlAnalysisResult) -> int {
    a.value_score as int - a.redundancy_score as int
}

/// The decision policy: the first rule that applies decides, `true` meaning HTML.
pub open spec fn prefers_html(a: HtmlAnalysisResult) -> bool {
    let net = net_score(a);
    if a.similarity.reaches(98, 100) && a.redundancy_score > 20 {
        false
    } else if producer_prefers_text(a) {
        false
    } else if a.redundancy_score > 45 && a.similarity.exceeds(8, 10) {
        false
    } else if a.redundancy_score > 60 && a.value_score < 20 {
        false
    } else if a.features.has_rich_content {
        true
    } else if a.features.has_complex_structure && a.html_text_ratio.falls_below(3, 1)
        && a.redundancy_score < 40 && a.similarity.falls_below(8, 10) {
        true
    } else if net > 30 {
        true
    } else if net < -20 {
        false
    } else if -10 < net && net <= 10 {
        a.similarity.falls_below(6, 10) && a.value_score > 20
    } else {
        net > 0
    }
}

/// Decides between HTML and text from an analysis; `true` means HTML.
pub fn make_html_decision(analysis: &HtmlAnalysisResult) -> (r: bool)
    ensures
        r == prefers_html(*analysis),
{
    let a = analysis;
    let net: i64 = a.value_score as i64 - a.redundancy_score as i64;
    if a.similarity.is_at_least(98, 100) && a.redundancy_score > 20 {
        return false;
    }
    if let Some(d) = a.detected {
        match d.kind {
            ProducerKind::ChatAssistant => {
                if d.confidence_percent > 70 && a.similarity.is_above(8, 10) {
                    return false;
                }
            },
            ProducerKind::OfficeSuite => {
                match a.office_level {
                    Some(OfficeRedundancyLevel::High) => {
                        if a.similarity.is_above(85, 100) {
                            return false;
                        }
                    },
                    Some(OfficeRedundancyLevel::Medium) => {
                        if a.similarity.is_above(9, 10) && a.value_score < 30 {
                            return false;
                        }
                    },
                    Some(OfficeRedundancyLevel::Low) => {
                        if a.similarity.is_above(95, 100) && a.value_score < 20 {
                            return false;
                        }
                    },
                    Some(OfficeRedundancyLevel::NoRedundancy) => {},
                    None => {
                        if d.confidence_percent > 80 && a.similarity.is_above(9, 10) {
                            return false;
                        }
                    },
                }
            },
            ProducerKind::NativeEcosystemEditor => {
                if d.confidence_percent > 90 && a.similarity.is_above(95, 100) && a.value_score
                    < 20 {
                    return false;
                }
            },
            ProducerKind::Unknown => {},
        }
    }
    if a.redundancy_score > 45 && a.similarity.is_above(8, 10) {
        return false;
    }
    if a.redundancy_score > 60 && a.value_score < 20 {
        return false;
    }
    if a.features.has_rich_content {
        return true;
    }
    if a.features.has_complex_structure && a.html_text_ratio.is_below(3, 1) && a.redundancy_score
        < 40 && a.similarity.is_below(8, 10) {
        return true;
    }
    if net > 30 {
        return true;
    }
    if net < -20 {
        return false;
    }
    if net > -10 && net <= 10 {
        return a.similarity.is_below(6, 10) && a.value_score > 20;
    }
    net > 0
}

/// The fallback decision on lower-cased HTML: HTML exactly when an image, video or audio tag
/// occurs. Chat and office markers, an HTML three times longer than the text, and all other
/// cases lead to text.
pub open spec fn fallback_prefers_html(h: Seq<char>) -> bool {
    contains_seq(h, "<img"@) || contains_seq(h, "<video"@) || contains_seq(h, "<audio"@)
}

/// The quick decision used when the budgeted analysis could not finish; `true` means HTML.
pub fn fallback_html_decision(html_content: &str, text_content: &str) -> (r: bool)
    ensures
        r == fallback_prefers_html(lower_of(html_content@)),
{
    let lowered = to_lower(html_content);
    let h = chars_of(lowered.as_str());
    if contains_str(&h, "<img") || contains_str(&h, "<video") || contains_str(&h, "<audio") {
        return true;
    }
    if contains_str(&h, "data-testid=\"conversation") || contains_str(&h, "chatgpt") {
        return false;
    }
    if contains_str(&h, "mso-") || contains_str(&h, "xmlns:o=") {
        return false;
    }
    let html_len = html_content.len() as u128;
    let text_len = text_content.len() as u128;
    if html_len > text_len * 3 {
        return false;
    }
    false
}

} // verus!

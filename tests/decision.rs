use clipboard_core::similarity::extract_text_from_html_optimized;
use clipboard_core::analyzer::{decision_from_outcome, ContentFormat, OptimizedContentAnalyzer};
use clipboard_core::budget::{AnalysisConfig, PerformanceError, PerformanceMonitor};
use clipboard_core::decision::{
    fallback_html_decision, make_html_decision, DetectedProducer, HtmlAnalysisResult,
    OfficeRedundancyLevel,
};
use clipboard_core::fraction::Fraction;
use clipboard_core::scoring::{analyze_html_features_optimized, HtmlFeatures, ProducerKind};

fn analyzer() -> OptimizedContentAnalyzer {
    OptimizedContentAnalyzer::new(AnalysisConfig::default())
}

fn monitor() -> PerformanceMonitor {
    PerformanceMonitor::new(&AnalysisConfig {
        analysis_timeout_ms: 60_000,
        ..Default::default()
    })
}

fn similarity(html: &str, text: &str) -> Fraction {
    analyzer()
        .calculate_similarity_optimized(html, text, &monitor())
        .unwrap()
}

fn no_features() -> HtmlFeatures {
    HtmlFeatures {
        has_rich_content: false,
        has_complex_structure: false,
        has_multiple_links: false,
        has_meaningful_styling: false,
    }
}

fn base_analysis() -> HtmlAnalysisResult {
    HtmlAnalysisResult {
        similarity: Fraction { num: 1, den: 2 },
        tag_density: Fraction { num: 0, den: 1 },
        html_text_ratio: Fraction { num: 1, den: 1 },
        value_score: 0,
        redundancy_score: 0,
        features: no_features(),
        detected: None,
        office_level: None,
    }
}

#[test]
fn rich_content_scenario() {
    let html = "<img src=x><p>hi</p>";
    let text = "hi";
    let a = analyzer()
        .analyze_html_content_optimized(html, text, &monitor())
        .unwrap();
    assert!(a.features.has_rich_content);
    // The visible text equals the plain text, so similarity is 1.0 and redundancy 5.0:
    // the near-duplicate rule comes before the rich-content rule and keeps text.
    assert_eq!(a.similarity, Fraction { num: 1, den: 1 });
    assert_eq!(a.redundancy_score, 50);
    assert!(!make_html_decision(&a));
    assert!(!analyzer().should_prefer_html(html, text));
    // With text that the HTML does not merely restate, rich content keeps HTML.
    let b = analyzer()
        .analyze_html_content_optimized("<img src=x><p>alpha beta</p>", "gamma", &monitor())
        .unwrap();
    assert_eq!(b.redundancy_score, 0);
    assert!(make_html_decision(&b));
    assert!(analyzer().should_prefer_html("<img src=x><p>alpha beta</p>", "gamma"));
}

#[test]
fn plain_div_prefers_text() {
    let html = "<div>Hello world</div>";
    let text = "Hello world";
    let lower_html = html.to_lowercase();
    let lower_text = text.to_lowercase();
    let a = analyzer()
        .analyze_html_content_optimized(&lower_html, &lower_text, &monitor())
        .unwrap();
    assert_eq!(a.similarity, Fraction { num: 2, den: 2 });
    assert_eq!(a.value_score, 0);
    assert_eq!(a.features, no_features());
    assert_eq!(a.detected, None);
    assert!(!make_html_decision(&a));
    assert!(!analyzer().should_prefer_html(html, text));
}

#[test]
fn chat_assistant_with_high_similarity_prefers_text() {
    let mut a = base_analysis();
    a.similarity = Fraction { num: 85, den: 100 };
    a.redundancy_score = 0;
    a.detected = Some(DetectedProducer {
        kind: ProducerKind::ChatAssistant,
        confidence_percent: 80,
    });
    assert!(!make_html_decision(&a));
    // The same analysis without the producer falls to the net score, which is zero: text.
    a.detected = None;
    a.value_score = 25;
    a.similarity = Fraction { num: 1, den: 2 };
    assert!(make_html_decision(&a));
}

#[test]
fn chat_markup_is_detected_in_the_pipeline() {
    let html = "<div data-testid=\"conversation-turn\">one two three</div>";
    let text = "one two three";
    let a = analyzer()
        .analyze_html_content_optimized(html, text, &monitor())
        .unwrap();
    assert_eq!(
        a.detected,
        Some(DetectedProducer {
            kind: ProducerKind::ChatAssistant,
            confidence_percent: 80
        })
    );
    assert!(!analyzer().should_prefer_html(html, text));
}

#[test]
fn empty_payloads_have_zero_similarity() {
    assert_eq!(similarity("", "hello"), Fraction { num: 0, den: 1 });
    assert_eq!(similarity("<p>hello</p>", ""), Fraction { num: 0, den: 1 });
    assert_eq!(similarity("", ""), Fraction { num: 0, den: 1 });
    let big = "a".repeat(60_000);
    assert_eq!(similarity(&big, ""), Fraction { num: 0, den: 1 });
}

#[test]
fn oversized_html_uses_fallback() {
    let mut html = String::from("<p style=\"mso-line\">");
    html.push_str(&"x".repeat(2 * 1024 * 1024));
    html.push_str("</p>");
    let analyzer = analyzer();
    match analyzer.analyze_budgeted(&html, "x") {
        Err(PerformanceError::ContentTooLarge { size, limit }) => {
            assert_eq!(size, html.len());
            assert_eq!(limit, 1024 * 1024);
        }
        other => panic!("unexpected {:?}", other),
    }
    assert!(!fallback_html_decision(&html, "x"));
    assert!(!analyzer.should_prefer_html(&html, "x"));

    let mut with_image = String::from("<img src=a>");
    with_image.push_str(&"x".repeat(2 * 1024 * 1024));
    assert!(analyzer.should_prefer_html(&with_image, "x"));
}

#[test]
fn oversized_text_uses_fallback() {
    let text = "y".repeat(2 * 1024 * 1024);
    match analyzer().analyze_budgeted("<video></video>", &text) {
        Err(PerformanceError::ContentTooLarge { size, .. }) => assert_eq!(size, text.len()),
        other => panic!("unexpected {:?}", other),
    }
    assert!(analyzer().should_prefer_html("<video></video>", &text));
}

#[test]
fn timeout_outcome_uses_fallback() {
    let html = "<table><tr><td>a</td></tr></table><img src=q>";
    let timed_out: Result<bool, PerformanceError> =
        Err(PerformanceError::AnalysisTimeout { timeout_ms: 200 });
    assert_eq!(
        decision_from_outcome(&timed_out, html, "a"),
        fallback_html_decision(html, "a")
    );
    assert!(decision_from_outcome(&timed_out, html, "a"));
    assert!(!decision_from_outcome(&timed_out, "<p>mso-</p>", "a"));
    let other: Result<bool, PerformanceError> =
        Err(PerformanceError::MonitoringError("x".to_string()));
    assert!(!decision_from_outcome(&other, html, "a"));
    assert!(decision_from_outcome(&Ok(true), "<p>x</p>", "a"));
}

#[test]
fn zero_budget_still_decides() {
    let config = AnalysisConfig {
        analysis_timeout_ms: 0,
        ..Default::default()
    };
    let a = OptimizedContentAnalyzer::new(config);
    let html = "<img src=x><p>alpha beta</p>";
    // Either the analysis finished within a millisecond or the fallback decided: both say HTML.
    assert!(a.should_prefer_html(html, "gamma"));
}

#[test]
fn decisions_are_repeatable() {
    let a = analyzer();
    let html = "<ul><li>one</li><li>two</li></ul>";
    let text = "one two";
    let first = a.should_prefer_html(html, text);
    for _ in 0..5 {
        assert_eq!(a.should_prefer_html(html, text), first);
    }
    let m = monitor();
    let r1 = a.analyze_html_content_optimized(html, text, &m).unwrap();
    let r2 = a.analyze_html_content_optimized(html, text, &m).unwrap();
    assert_eq!(r1, r2);
    assert_eq!(make_html_decision(&r1), make_html_decision(&r2));
}

#[test]
fn fallback_rules() {
    assert!(fallback_html_decision("<IMG src=x>", "x"));
    assert!(fallback_html_decision("<video>", "x"));
    assert!(fallback_html_decision("<audio>", "x"));
    assert!(!fallback_html_decision("<div data-testid=\"conversation\">", "x"));
    assert!(!fallback_html_decision("<p>ChatGPT</p>", "x"));
    assert!(!fallback_html_decision("<html xmlns:o=\"urn\">", "x"));
    assert!(!fallback_html_decision("<p>a</p>", "a"));
    assert!(!fallback_html_decision("ab", "ab"));
}

#[test]
fn redundancy_counts_the_producer_twice() {
    // "mso-" weighs 3.0; the office producer adds 1.5 and then 2.5; similarity is zero.
    let a = analyzer()
        .analyze_html_content_optimized("<p style=\"mso-line\">hello</p>", "goodbye", &monitor())
        .unwrap();
    assert_eq!(a.detected.map(|d| d.kind), Some(ProducerKind::OfficeSuite));
    assert_eq!(a.similarity, Fraction { num: 0, den: 2 });
    assert_eq!(a.redundancy_score, 70);
    assert_eq!(a.value_score, 10);
}

#[test]
fn value_score_sums_features() {
    let html = "<img><table><a href=1><a href=2><a href=3><b style=\"color:red\">x</b>";
    let a = analyzer()
        .analyze_html_content_optimized(html, "zzz", &monitor())
        .unwrap();
    assert_eq!(
        a.features,
        HtmlFeatures {
            has_rich_content: true,
            has_complex_structure: true,
            has_multiple_links: true,
            has_meaningful_styling: true,
        }
    );
    // 4 + 3 + 2 + 2 + 1 = 12, capped at 10.
    assert_eq!(a.value_score, 100);
    assert_eq!(a.html_text_ratio, Fraction { num: html.len() as u64, den: 3 });
    assert_eq!(a.tag_density, Fraction { num: 7, den: 3 });
}

#[test]
fn two_links_are_not_many() {
    let f = analyze_html_features_optimized("<a href=1>x</a><a href=2>y</a>", &monitor()).unwrap();
    assert!(!f.has_multiple_links);
}

#[test]
fn similarity_strips_scripts_and_styles() {
    let s = similarity(
        "<script>var x = 1;</script><style>p{}</style><p>hi there</p>",
        "hi there",
    );
    assert_eq!(s, Fraction { num: 2, den: 2 });
    let upper = similarity("<SCRIPT>hidden</SCRIPT><p>shown</p>", "shown");
    assert_eq!(upper, Fraction { num: 1, den: 1 });
}

#[test]
fn jaccard_on_word_sets() {
    assert_eq!(similarity("<p>a b c</p>", "a b d"), Fraction { num: 2, den: 4 });
    assert_eq!(similarity("<p>a a b</p>", "b b"), Fraction { num: 1, den: 2 });
    assert_eq!(similarity("<p>a\n\tb</p>", " a   b "), Fraction { num: 2, den: 2 });
}

#[test]
fn sampling_path_for_large_payloads() {
    let html = "a".repeat(60_000);
    let mut text = "a".repeat(500);
    text.push_str(&"b".repeat(600));
    assert_eq!(similarity(&html, &text), Fraction { num: 500, den: 1000 });
    let short = "ab".to_string();
    assert_eq!(similarity(&html, &short), Fraction { num: 1, den: 2 });
}

#[test]
fn policy_rules_in_order() {
    let mut a = base_analysis();
    // Rule 1: near-duplicate with some redundancy.
    a.similarity = Fraction { num: 98, den: 100 };
    a.redundancy_score = 21;
    a.features.has_rich_content = true;
    assert!(!make_html_decision(&a));
    // Without redundancy the rich content wins.
    a.redundancy_score = 20;
    assert!(make_html_decision(&a));

    // Office tiers.
    let mut o = base_analysis();
    o.detected = Some(DetectedProducer { kind: ProducerKind::OfficeSuite, confidence_percent: 80 });
    o.features.has_rich_content = true;
    o.similarity = Fraction { num: 86, den: 100 };
    o.office_level = Some(OfficeRedundancyLevel::High);
    assert!(!make_html_decision(&o));
    o.office_level = Some(OfficeRedundancyLevel::Medium);
    assert!(make_html_decision(&o));
    o.office_level = None;
    assert!(make_html_decision(&o));
    o.detected = Some(DetectedProducer { kind: ProducerKind::OfficeSuite, confidence_percent: 81 });
    o.similarity = Fraction { num: 91, den: 100 };
    assert!(!make_html_decision(&o));
    o.office_level = Some(OfficeRedundancyLevel::NoRedundancy);
    assert!(make_html_decision(&o));

    // Rule 5 and rule 6.
    let mut r = base_analysis();
    r.features.has_rich_content = true;
    r.redundancy_score = 46;
    r.similarity = Fraction { num: 81, den: 100 };
    assert!(!make_html_decision(&r));
    r.similarity = Fraction { num: 1, den: 2 };
    r.redundancy_score = 61;
    r.value_score = 19;
    assert!(!make_html_decision(&r));

    // Rule 8: complex structure.
    let mut c = base_analysis();
    c.features.has_complex_structure = true;
    c.html_text_ratio = Fraction { num: 5, den: 2 };
    c.redundancy_score = 39;
    c.similarity = Fraction { num: 79, den: 100 };
    assert!(make_html_decision(&c));
    c.html_text_ratio = Fraction { num: 3, den: 1 };
    assert!(!make_html_decision(&c));

    // Rule 9: net score bands.
    let mut n = base_analysis();
    n.value_score = 31;
    assert!(make_html_decision(&n));
    n.value_score = 0;
    n.redundancy_score = 21;
    assert!(!make_html_decision(&n));
    n.redundancy_score = 0;
    n.value_score = 10;
    n.similarity = Fraction { num: 1, den: 2 };
    assert!(!make_html_decision(&n));
    n.value_score = 21;
    n.redundancy_score = 11;
    assert!(make_html_decision(&n));
    n.value_score = 30;
    n.redundancy_score = 0;
    assert!(make_html_decision(&n));
    n.value_score = 0;
    n.redundancy_score = 15;
    assert!(!make_html_decision(&n));
}

#[test]
fn boundary_band_prefers_html_for_low_similarity_and_value() {
    let mut a = base_analysis();
    a.value_score = 25;
    a.redundancy_score = 20;
    a.similarity = Fraction { num: 59, den: 100 };
    assert!(make_html_decision(&a));
    a.similarity = Fraction { num: 60, den: 100 };
    assert!(!make_html_decision(&a));
}

#[test]
fn detection_can_be_disabled() {
    let config = AnalysisConfig {
        enable_app_detection: false,
        ..Default::default()
    };
    let a = OptimizedContentAnalyzer::new(config);
    let m = monitor();
    assert_eq!(a.detect_application_optimized("<p class=\"mso-x\">", &m).unwrap(), None);
    assert_eq!(
        analyzer().detect_application_optimized("<P CLASS=\"MSO-X\">", &m).unwrap(),
        Some("MicrosoftOffice".to_string())
    );
    assert_eq!(
        analyzer().detect_application_optimized("<span class=\"apple-converted-space\">", &m).unwrap(),
        Some("AppleEcosystem".to_string())
    );
    assert_eq!(analyzer().detect_application_optimized("<p>plain</p>", &m).unwrap(), None);
}

#[test]
fn priority_orders_formats() {
    let a = analyzer();
    assert_eq!(
        a.determine_content_priority(true, true, false, false, true, None, None),
        vec![ContentFormat::Files, ContentFormat::Image, ContentFormat::Rtf]
    );
    assert_eq!(
        a.determine_content_priority(false, false, true, false, false, None, None),
        vec![ContentFormat::Html]
    );
    assert_eq!(
        a.determine_content_priority(false, false, true, true, false, None, Some("t")),
        vec![ContentFormat::Text]
    );
    assert_eq!(
        a.determine_content_priority(false, false, true, true, false, Some("<p>t</p>"), None),
        vec![ContentFormat::Html]
    );
    assert_eq!(
        a.determine_content_priority(false, false, true, true, false, None, None),
        vec![ContentFormat::Html]
    );
    assert_eq!(
        a.determine_content_priority(false, true, true, true, true, Some("<div>Hello world</div>"), Some("Hello world")),
        vec![ContentFormat::Image, ContentFormat::Text, ContentFormat::Rtf]
    );
    assert_eq!(
        a.determine_content_priority(false, false, true, true, false, Some("<img src=x><p>alpha</p>"), Some("beta")),
        vec![ContentFormat::Html]
    );
    assert_eq!(ContentFormat::Files.name(), "files");
    assert_eq!(ContentFormat::Rtf.name(), "rtf");
}

#[test]
fn sampling_starts_above_fifty_thousand_characters() {
    let at_limit = "a".repeat(50_000);
    assert_eq!(similarity(&at_limit, "a b"), Fraction { num: 0, den: 3 });
    let over = "a".repeat(50_001);
    assert_eq!(similarity(&over, "a b"), Fraction { num: 1, den: 3 });
}

#[test]
fn monitored_analysis_checks_size_first() {
    let config = AnalysisConfig {
        max_content_size: 4,
        ..Default::default()
    };
    let a = OptimizedContentAnalyzer::new(config);
    let r = a.analyze_with_monitoring("<p>long</p>", |html, monitor| {
        a.calculate_similarity_optimized(html, "long", monitor)
    });
    match r {
        Err(PerformanceError::ContentTooLarge { size, limit }) => {
            assert_eq!(size, 11);
            assert_eq!(limit, 4);
        }
        other => panic!("unexpected {:?}", other),
    }
    let ok = a.analyze_with_monitoring("abcd", |html, _monitor| Ok::<usize, PerformanceError>(html.len()));
    assert_eq!(ok.unwrap(), 4);
}

#[test]
fn extracted_text_collapses_white_space() {
    let html: Vec<char> = "  <p>a  \n b</p>\t<script>x y</script> c  ".chars().collect();
    let out = extract_text_from_html_optimized(&html, &monitor()).unwrap();
    assert_eq!(out.iter().collect::<String>(), "a b c");
    let empty: Vec<char> = "<p>   </p>".chars().collect();
    assert!(extract_text_from_html_optimized(&empty, &monitor()).unwrap().is_empty());
}

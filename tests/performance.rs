use clipboard_core::analyzer::OptimizedContentAnalyzer;
use clipboard_core::benchmark::PerformanceBenchmarkSuite;
use clipboard_core::benchmark::PerformanceBenchmark;
use clipboard_core::budget::{
    remaining_after, timeout_verdict, AnalysisConfig, PerformanceError, PerformanceMonitor,
};
use std::time::{Duration, Instant};

fn wait_at_least(d: Duration) {
    let start = Instant::now();
    while start.elapsed() < d {}
}

#[test]
fn test_performance_monitor_timeout() {
    let config = AnalysisConfig {
        analysis_timeout_ms: 10,
        ..Default::default()
    };
    let monitor = PerformanceMonitor::new(&config);

    assert!(monitor.check_timeout().is_ok());

    wait_at_least(Duration::from_millis(15));

    assert!(monitor.check_timeout().is_err());
}

#[test]
fn test_content_size_limit() {
    let config = AnalysisConfig {
        max_content_size: 100,
        ..Default::default()
    };
    let monitor = PerformanceMonitor::new(&config);

    assert!(monitor.check_content_size("small").is_ok());

    let large_content = "a".repeat(200);
    assert!(monitor.check_content_size(&large_content).is_err());
}

#[test]
fn test_optimized_similarity_calculation() {
    let config = AnalysisConfig::default();
    let analyzer = OptimizedContentAnalyzer::new(config);

    let html = "<div>Hello world</div>";
    let text = "Hello world";

    let result = analyzer.analyze_with_monitoring(html, |html, monitor| {
        analyzer.calculate_similarity_optimized(html, text, monitor)
    });

    assert!(result.is_ok());
    let similarity = result.unwrap();
    assert!(similarity.num as f64 / similarity.den as f64 > 0.8);
}

#[test]
fn test_app_detection_optimization() {
    let config = AnalysisConfig::default();
    let analyzer = OptimizedContentAnalyzer::new(config);

    let chatgpt_html = r#"<div data-testid="conversation-turn">Content</div>"#;

    let result = analyzer.analyze_with_monitoring(chatgpt_html, |html, monitor| {
        analyzer.detect_application_optimized(html, monitor)
    });

    assert!(result.is_ok());
    let detected = result.unwrap();
    assert_eq!(detected, Some("ChatGPT".to_string()));
}

#[test]
fn test_benchmark_suite() {
    let config = AnalysisConfig {
        analysis_timeout_ms: 1000,
        ..Default::default()
    };
    let suite = PerformanceBenchmarkSuite::new(config);

    let results = suite.run_benchmarks();

    assert!(!results.is_empty());

    for result in &results {
        println!(
            "{} {} - {} bytes - {}ms",
            if result.success { "PASS" } else { "FAIL" },
            result.test_name,
            result.content_size,
            result.processing_time_ms
        );
    }
}

#[test]
fn benchmark_suite_names_its_runs() {
    let suite = PerformanceBenchmarkSuite::new(AnalysisConfig::default());
    let results = suite.run_benchmarks();
    let names: Vec<&str> = results.iter().map(|r| r.test_name.as_str()).collect();
    assert_eq!(
        names,
        vec![
            "Small Content",
            "Medium Content",
            "Large Content",
            "Similarity Calculation",
            "App Detection"
        ]
    );
    for r in &results {
        assert_eq!(r.success, r.error_message.is_none());
    }
}

#[test]
fn default_config_values() {
    let c = AnalysisConfig::default();
    assert_eq!(c.similarity_threshold_percent, 95);
    assert_eq!(c.analysis_timeout_ms, 200);
    assert_eq!(c.max_content_size, 1024 * 1024);
    assert!(c.enable_app_detection);
    assert!(c.enable_redundancy_scoring);
    assert!(!c.log_analysis_details);
}

#[test]
fn monitor_counts_completions() {
    let mut m = PerformanceMonitor::new(&AnalysisConfig::default());
    assert_eq!(m.analysis_count(), 0);
    m.record_completion();
    m.record_completion();
    assert_eq!(m.analysis_count(), 2);
    assert!(m.remaining_time_ms() <= 200);
    assert_eq!(m.timeout_ms(), 200);
    assert_eq!(m.max_content_size(), 1048576);
}

#[test]
fn size_check_reports_size_and_limit() {
    let config = AnalysisConfig {
        max_content_size: 3,
        ..Default::default()
    };
    let m = PerformanceMonitor::new(&config);
    assert!(m.check_content_size("abc").is_ok());
    match m.check_content_size("abcd") {
        Err(PerformanceError::ContentTooLarge { size, limit }) => {
            assert_eq!(size, 4);
            assert_eq!(limit, 3);
        }
        other => panic!("unexpected {:?}", other),
    }
    // Two bytes for one character: the limit is in bytes.
    assert!(m.check_content_size("é").is_ok());
    assert!(m.check_content_size("éé").is_err());
}

#[test]
fn timeout_verdict_is_exact() {
    assert!(timeout_verdict(10, 10).is_ok());
    match timeout_verdict(11, 10) {
        Err(PerformanceError::AnalysisTimeout { timeout_ms }) => assert_eq!(timeout_ms, 10),
        other => panic!("unexpected {:?}", other),
    }
    assert_eq!(remaining_after(3, 10), 7);
    assert_eq!(remaining_after(10, 10), 0);
    assert_eq!(remaining_after(50, 10), 0);
}

#[test]
fn error_messages() {
    assert_eq!(
        PerformanceError::AnalysisTimeout { timeout_ms: 200 }.message(),
        "analysis timed out: over 200ms"
    );
    assert_eq!(
        PerformanceError::ContentTooLarge { size: 2097152, limit: 1048576 }.message(),
        "content too large: 2097152 bytes over the limit of 1048576"
    );
    assert_eq!(
        PerformanceError::MonitoringError("x".to_string()).message(),
        "monitoring error: x"
    );
}

#[test]
fn benchmark_records() {
    let mut b = PerformanceBenchmark::new("run".to_string(), 10);
    assert!(!b.success);
    assert_eq!(b.processing_time_ms, 0);
    b.record_failure(7, "boom".to_string());
    assert!(!b.success);
    assert_eq!(b.error_message, Some("boom".to_string()));
    b.record_success(3);
    assert!(b.success);
    assert_eq!(b.processing_time_ms, 3);
    assert_eq!(b.error_message, None);
}

#[test]
fn completion_adds_the_reading_to_the_total() {
    let mut m = PerformanceMonitor::new(&AnalysisConfig::default());
    m.record_completion_after(7);
    m.record_completion_after(5);
    assert_eq!(m.analysis_count(), 2);
    assert_eq!(m.total_time_ms(), 12);
    m.record_completion_after(u64::MAX);
    assert_eq!(m.total_time_ms(), u64::MAX);
    assert_eq!(m.analysis_count(), 3);
}

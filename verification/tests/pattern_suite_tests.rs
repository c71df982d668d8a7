use shogi_engine::pattern_comprehensive_tests::{PatternTestSuite, TestResults};

#[test]
fn test_suite_creation() {
    let suite = PatternTestSuite::new();
    assert_eq!(suite.results().unit_tests_run, 0);
}

#[test]
fn test_run_unit_tests() {
    let mut suite = PatternTestSuite::new();
    assert!(suite.run_unit_tests());
    assert_eq!(suite.results().unit_tests_run, 1);
    assert_eq!(suite.results().unit_tests_passed, 1);
}

#[test]
fn test_run_integration_tests() {
    let mut suite = PatternTestSuite::new();
    assert!(suite.run_integration_tests());
    assert_eq!(suite.results().integration_tests_run, 1);
}

#[test]
fn test_run_performance_tests() {
    let mut suite = PatternTestSuite::new();
    assert!(suite.run_performance_tests());
    assert_eq!(suite.results().performance_tests_run, 1);
}

#[test]
fn test_run_accuracy_tests() {
    let mut suite = PatternTestSuite::new();
    assert!(suite.run_accuracy_tests());
    assert!(suite.results().accuracy_tests_run >= 1);
}

#[test]
fn test_run_regression_tests() {
    let mut suite = PatternTestSuite::new();
    assert!(suite.run_regression_tests());
    assert_eq!(suite.results().regression_tests_run, 1);
}

#[test]
fn test_run_all_tests() {
    let mut suite = PatternTestSuite::new();
    assert!(suite.run_all_tests());
    assert!(suite.results().total_run() >= 5);
}

#[test]
fn totals_add_every_category() {
    let mut results = TestResults::default();
    results.unit_tests_run = 10;
    results.unit_tests_passed = 9;
    results.integration_tests_run = 5;
    results.integration_tests_passed = 5;
    results.regression_tests_run = 2;
    assert_eq!(results.total_run(), 17);
    assert_eq!(results.total_passed(), 14);
}

#[test]
fn running_everything_twice_counts_ten_passes_each_time() {
    let mut suite = PatternTestSuite::new();
    suite.run_all_tests();
    suite.run_all_tests();
    assert_eq!(suite.results().total_run(), 10);
    assert_eq!(suite.results().total_passed(), 10);
    assert_eq!(suite.results().accuracy_tests_passed, 2);
}

//! A suite that runs the pattern-recognition checks by category and keeps
//! counts of checks run and passed.

use vstd::prelude::*;
use crate::board::Board;
use crate::types::Player;

verus! {

/// Checks run and passed, by category.
#[derive(Debug, Clone, Copy, PartialEq, Eq, Structural)]
pub struct TestResults {
    pub unit_tests_run: u32,
    pub unit_tests_passed: u32,
    pub integration_tests_run: u32,
    pub integration_tests_passed: u32,
    pub performance_tests_run: u32,
    pub performance_tests_passed: u32,
    pub accuracy_tests_run: u32,
    pub accuracy_tests_passed: u32,
    pub regression_tests_run: u32,
    pub regression_tests_passed: u32,
}

impl TestResults {
    pub open spec fn zeroed() -> Self {
        TestResults {
            unit_tests_run: 0,
            unit_tests_passed: 0,
            integration_tests_run: 0,
            integration_tests_passed: 0,
            performance_tests_run: 0,
            performance_tests_passed: 0,
            accuracy_tests_run: 0,
            accuracy_tests_passed: 0,
            regression_tests_run: 0,
            regression_tests_passed: 0,
        }
    }

    pub open spec fn run_sum(self) -> int {
        self.unit_tests_run + self.integration_tests_run + self.performance_tests_run + self.accuracy_tests_run
            + self.regression_tests_run
    }

    pub open spec fn passed_sum(self) -> int {
        self.unit_tests_passed + self.integration_tests_passed + self.performance_tests_passed
            + self.accuracy_tests_passed + self.regression_tests_passed
    }

    /// Checks run over all categories.
    pub fn total_run(&self) -> (r: u32)
        requires
            self.run_sum() <= u32::MAX,
        ensures
            r == self.run_sum(),
    {
        self.unit_tests_run + self.integration_tests_run + self.performance_tests_run + self.accuracy_tests_run
            + self.regression_tests_run
    }

    /// Checks passed over all categories.
    pub fn total_passed(&self) -> (r: u32)
        requires
            self.passed_sum() <= u32::MAX,
        ensures
            r == self.passed_sum(),
    {
        self.unit_tests_passed + self.integration_tests_passed + self.performance_tests_passed
            + self.accuracy_tests_passed + self.regression_tests_passed
    }
}

impl Default for TestResults {
    fn default() -> (r: Self)
        ensures
            r == TestResults::zeroed(),
    {
        TestResults {
            unit_tests_run: 0,
            unit_tests_passed: 0,
            integration_tests_run: 0,
            integration_tests_passed: 0,
            performance_tests_run: 0,
            performance_tests_passed: 0,
            accuracy_tests_run: 0,
            accuracy_tests_passed: 0,
            regression_tests_run: 0,
            regression_tests_passed: 0,
        }
    }
}

/// A position with the patterns expected in it.
struct TestPosition {
    board: Board,
    player: Player,
    expected_patterns: Vec<&'static str>,
}

/// Runs the pattern checks and keeps their results.
pub struct PatternTestSuite {
    results: TestResults,
}

impl PatternTestSuite {
    pub closed spec fn results_view(&self) -> TestResults {
        self.results
    }

    /// A suite with no check run.
    pub fn new() -> (r: Self)
        ensures
            r.results_view() == TestResults::zeroed(),
    {
        PatternTestSuite { results: TestResults::default() }
    }

    /// Runs every category in turn, stopping at the first that fails; all
    /// pass, so each category runs once.
    pub fn run_all_tests(&mut self) -> (r: bool)
        ensures
            r,
            final(self).results_view() == (TestResults {
                unit_tests_run: old(self).results_view().unit_tests_run.wrapping_add(1),
                unit_tests_passed: old(self).results_view().unit_tests_passed.wrapping_add(1),
                integration_tests_run: old(self).results_view().integration_tests_run.wrapping_add(1),
                integration_tests_passed: old(self).results_view().integration_tests_passed.wrapping_add(1),
                performance_tests_run: old(self).results_view().performance_tests_run.wrapping_add(1),
                performance_tests_passed: old(self).results_view().performance_tests_passed.wrapping_add(1),
                accuracy_tests_run: old(self).results_view().accuracy_tests_run.wrapping_add(1),
                accuracy_tests_passed: old(self).results_view().accuracy_tests_passed.wrapping_add(1),
                regression_tests_run: old(self).results_view().regression_tests_run.wrapping_add(1),
                regression_tests_passed: old(self).results_view().regression_tests_passed.wrapping_add(1),
            }),
    {
        self.run_unit_tests() && self.run_integration_tests() && self.run_performance_tests()
            && self.run_accuracy_tests() && self.run_regression_tests()
    }

    /// Counts one unit check run and passed.
    pub fn run_unit_tests(&mut self) -> (r: bool)
        ensures
            r,
            final(self).results_view() == (TestResults {
                unit_tests_run: old(self).results_view().unit_tests_run.wrapping_add(1),
                unit_tests_passed: old(self).results_view().unit_tests_passed.wrapping_add(1),
                ..old(self).results_view()
            }),
    {
        self.results.unit_tests_run = self.results.unit_tests_run.wrapping_add(1);
        self.results.unit_tests_passed = self.results.unit_tests_passed.wrapping_add(1);
        true
    }

    /// Counts one integration check run and passed.
    pub fn run_integration_tests(&mut self) -> (r: bool)
        ensures
            r,
            final(self).results_view() == (TestResults {
                integration_tests_run: old(self).results_view().integration_tests_run.wrapping_add(1),
                integration_tests_passed: old(self).results_view().integration_tests_passed.wrapping_add(1),
                ..old(self).results_view()
            }),
    {
        self.results.integration_tests_run = self.results.integration_tests_run.wrapping_add(1);
        let _board = Board::new();
        self.results.integration_tests_passed = self.results.integration_tests_passed.wrapping_add(1);
        true
    }

    /// Counts one performance check run and passed.
    pub fn run_performance_tests(&mut self) -> (r: bool)
        ensures
            r,
            final(self).results_view() == (TestResults {
                performance_tests_run: old(self).results_view().performance_tests_run.wrapping_add(1),
                performance_tests_passed: old(self).results_view().performance_tests_passed.wrapping_add(1),
                ..old(self).results_view()
            }),
    {
        self.results.performance_tests_run = self.results.performance_tests_run.wrapping_add(1);
        self.results.performance_tests_passed = self.results.performance_tests_passed.wrapping_add(1);
        true
    }

    /// Counts one accuracy run and one pass per validated test position
    /// (there is one, and it validates).
    pub fn run_accuracy_tests(&mut self) -> (r: bool)
        ensures
            r,
            final(self).results_view() == (TestResults {
                accuracy_tests_run: old(self).results_view().accuracy_tests_run.wrapping_add(1),
                accuracy_tests_passed: old(self).results_view().accuracy_tests_passed.wrapping_add(1),
                ..old(self).results_view()
            }),
    {
        self.results.accuracy_tests_run = self.results.accuracy_tests_run.wrapping_add(1);
        let test_positions = self.get_test_positions();
        let ghost start = self.results;
        let mut k: usize = 0;
        while k < test_positions.len()
            invariant
                k <= test_positions.len(),
                test_positions.len() == 1,
                self.results == (TestResults {
                    accuracy_tests_passed: if k == 0 {
                        start.accuracy_tests_passed
                    } else {
                        start.accuracy_tests_passed.wrapping_add(1)
                    },
                    ..start
                }),
            decreases test_positions.len() - k,
        {
            if self.validate_position_evaluation(&test_positions[k]) {
                self.results.accuracy_tests_passed = self.results.accuracy_tests_passed.wrapping_add(1);
            }
            k += 1;
        }
        true
    }

    /// Counts one regression check run and passed.
    pub fn run_regression_tests(&mut self) -> (r: bool)
        ensures
            r,
            final(self).results_view() == (TestResults {
                regression_tests_run: old(self).results_view().regression_tests_run.wrapping_add(1),
                regression_tests_passed: old(self).results_view().regression_tests_passed.wrapping_add(1),
                ..old(self).results_view()
            }),
    {
        self.results.regression_tests_run = self.results.regression_tests_run.wrapping_add(1);
        self.results.regression_tests_passed = self.results.regression_tests_passed.wrapping_add(1);
        true
    }

    fn get_test_positions(&self) -> (r: Vec<TestPosition>)
        ensures
            r.len() == 1,
    {
        let mut v: Vec<TestPosition> = Vec::new();
        let mut expected: Vec<&'static str> = Vec::new();
        expected.push("center_control");
        v.push(TestPosition { board: Board::new(), player: Player::Black, expected_patterns: expected });
        v
    }

    fn validate_position_evaluation(&self, _position: &TestPosition) -> (r: bool)
        ensures
            r,
    {
        true
    }

    /// The results so far.
    pub fn results(&self) -> (r: &TestResults)
        ensures
            *r == self.results_view(),
    {
        &self.results
    }
}

impl Default for PatternTestSuite {
    fn default() -> (r: Self)
        ensures
            r.results_view() == TestResults::zeroed(),
    {
        PatternTestSuite::new()
    }
}

} // verus!

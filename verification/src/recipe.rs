//! The recipe: an ordered sequence of test cases.
//!
//! Order is significant: it drives case numbering and the sequential
//! execution of the grading loop.  A channel expectation that is absent
//! means that channel is never checked for that case.

use vstd::prelude::*;

verus! {

/// The mathematical value of an optional byte vector.
pub open spec fn opt_bytes(o: Option<Vec<u8>>) -> Option<Seq<u8>> {
    match o {
        Some(v) => Some(v@),
        None => None,
    }
}

/// One scripted exchange: optional stdin to feed, and per-channel
/// optional expected output.
pub struct TestCase {
    pub input: Option<Vec<u8>>,
    pub expected_stdout: Option<Vec<u8>>,
    pub expected_stderr: Option<Vec<u8>>,
}

/// The mathematical value of a `TestCase`.
pub struct TestCaseView {
    pub input: Option<Seq<u8>>,
    pub expected_stdout: Option<Seq<u8>>,
    pub expected_stderr: Option<Seq<u8>>,
}

impl View for TestCase {
    type V = TestCaseView;

    open spec fn view(&self) -> TestCaseView {
        TestCaseView {
            input: opt_bytes(self.input),
            expected_stdout: opt_bytes(self.expected_stdout),
            expected_stderr: opt_bytes(self.expected_stderr),
        }
    }
}

impl TestCase {
    pub fn new(
        input: Option<Vec<u8>>,
        expected_stdout: Option<Vec<u8>>,
        expected_stderr: Option<Vec<u8>>,
    ) -> (c: TestCase)
        ensures
            c@.input == opt_bytes(input),
            c@.expected_stdout == opt_bytes(expected_stdout),
            c@.expected_stderr == opt_bytes(expected_stderr),
    {
        TestCase { input, expected_stdout, expected_stderr }
    }
}

/// An ordered collection of test cases for one grading run.
pub struct Recipe {
    pub cases: Vec<TestCase>,
}

impl View for Recipe {
    type V = Seq<TestCaseView>;

    open spec fn view(&self) -> Seq<TestCaseView> {
        Seq::new(self.cases@.len(), |i: int| self.cases@[i]@)
    }
}

impl Recipe {
    pub fn new(cases: Vec<TestCase>) -> (r: Recipe)
        ensures
            r@.len() == cases@.len(),
            forall|i: int| 0 <= i < cases@.len() ==> r@[i] == cases@[i]@,
    {
        Recipe { cases }
    }

    /// How many cases the recipe holds: the denominator of the summary.
    pub fn len(&self) -> (n: usize)
        ensures
            n == self@.len(),
    {
        self.cases.len()
    }
}

} // verus!

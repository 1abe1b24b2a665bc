//! Byte-exact comparison of captured output against the expectations a
//! test case declares.
//!
//! A channel with a declared expectation passes only on exact byte
//! equality; a channel without one trivially passes.  A case passes
//! exactly when both channels pass.

use crate::recipe::TestCase;
use crate::recipe::TestCaseView;
use crate::recipe::opt_bytes;
use vstd::prelude::*;

verus! {

/// Whether one output channel passes: no declared expectation, or the
/// captured bytes equal the expected bytes exactly.
pub open spec fn channel_ok(expected: Option<Seq<u8>>, actual: Seq<u8>) -> bool {
    match expected {
        None => true,
        Some(e) => actual == e,
    }
}

/// Whether a case passes: both its stdout and its stderr check pass.
pub open spec fn case_passes(case: TestCaseView, stdout: Seq<u8>, stderr: Seq<u8>) -> bool {
    channel_ok(case.expected_stdout, stdout) && channel_ok(case.expected_stderr, stderr)
}

/// Whether two byte vectors hold exactly the same bytes.
pub fn bytes_equal(a: &Vec<u8>, b: &Vec<u8>) -> (r: bool)
    ensures
        r == (a@ == b@),
{
    if a.len() != b.len() {
        return false;
    }
    let mut i: usize = 0;
    while i < a.len()
        invariant
            i <= a.len(),
            a@.len() == b@.len(),
            forall|j: int| 0 <= j < i ==> a@[j] == b@[j],
        decreases a.len() - i,
    {
        if a[i] != b[i] {
            return false;
        }
        i += 1;
    }
    proof {
        assert(a@ =~= b@);
    }
    true
}

/// Check one channel of a case against its captured bytes.
pub fn channel_passes(expected: &Option<Vec<u8>>, actual: &Vec<u8>) -> (r: bool)
    ensures
        r == channel_ok(opt_bytes(*expected), actual@),
{
    match expected {
        None => true,
        Some(e) => bytes_equal(actual, e),
    }
}

/// Grade one case from its captured stdout and stderr.
pub fn grade_case(case: &TestCase, stdout: &Vec<u8>, stderr: &Vec<u8>) -> (passed: bool)
    ensures
        passed == case_passes(case@, stdout@, stderr@),
{
    let out_ok = channel_passes(&case.expected_stdout, stdout);
    let err_ok = channel_passes(&case.expected_stderr, stderr);
    out_ok && err_ok
}

/// A case that declares no expectation on either channel passes, whatever
/// the candidate program emitted on either.
pub proof fn lemma_no_expectations_always_passes(case: TestCaseView, stdout: Seq<u8>, stderr: Seq<u8>)
    requires
        case.expected_stdout is None,
        case.expected_stderr is None,
    ensures
        case_passes(case, stdout, stderr),
{
}

/// A declared channel check is byte-exact: it passes exactly when the
/// captured bytes equal the expected bytes.
pub proof fn lemma_channel_byte_exact(expected: Seq<u8>, actual: Seq<u8>)
    ensures
        channel_ok(Some(expected), actual) <==> actual == expected,
{
}

/// Byte-exactness has no tolerance for whitespace: output that differs
/// from the expectation only by one trailing newline fails, in either
/// direction.
pub proof fn lemma_trailing_newline_fails(expected: Seq<u8>)
    ensures
        !channel_ok(Some(expected), expected.push(10)),
        !channel_ok(Some(expected.push(10)), expected),
{
    assert(expected.push(10).len() == expected.len() + 1);
}

} // verus!

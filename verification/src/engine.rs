//! The grading engine: the session's state and its sequential per-case
//! loop, as one explicitly owned object.
//!
//! The engine owns the recipe, the resolved entrypoint, the container's
//! lifecycle state, and the results recorded so far.  The surrounding
//! binary performs the container and stream I/O and reports each step
//! back; every decision — what a case's verdict is, how the counters
//! move, what the summary says — is made and proved here.  No case is
//! recorded against a container that is not running.

use crate::compare::case_passes;
use crate::compare::grade_case;
use crate::lifecycle::ContainerState;
use crate::lifecycle::lifecycle_step_ok;
use crate::recipe::Recipe;
use crate::report::summary_chars;
use crate::report::summary_line;
use vstd::prelude::*;

verus! {

/// The immutable record of one graded case.
pub struct GradeResult {
    /// One-based case number, following recipe order.
    pub case_index: usize,
    /// Whether both channel checks passed.
    pub passed: bool,
    /// The accumulated stdout bytes of the case.
    pub stdout: Vec<u8>,
    /// The accumulated stderr bytes of the case.
    pub stderr: Vec<u8>,
}

/// How many of the recorded results passed.
pub open spec fn count_passed(results: Seq<GradeResult>) -> int
    decreases results.len(),
{
    if results.len() == 0 {
        0
    } else {
        count_passed(results.drop_last()) + (if results.last().passed {
            1int
        } else {
            0int
        })
    }
}

/// One grading session: one recipe, one resolved entrypoint, one
/// container, driven sequentially.
pub struct GradingEngine {
    pub recipe: Recipe,
    pub entrypoint: String,
    pub container: ContainerState,
    pub next_case: usize,
    pub passed: usize,
    pub results: Vec<GradeResult>,
}

impl GradingEngine {
    /// The engine's invariant: results mirror the recipe prefix already
    /// run, case numbers follow recipe order from one, each verdict is
    /// exactly the comparison outcome of its case, and the pass counter
    /// counts the passing results.
    pub open spec fn wf(self) -> bool {
        &&& self.results@.len() == self.next_case as int
        &&& self.next_case as int <= self.recipe@.len()
        &&& self.passed as int == count_passed(self.results@)
        &&& self.passed <= self.next_case
        &&& forall|i: int|
            0 <= i < self.results@.len() ==> {
                &&& (#[trigger] self.results@[i]).case_index as int == i + 1
                &&& self.results@[i].passed == case_passes(
                    self.recipe@[i],
                    self.results@[i].stdout@,
                    self.results@[i].stderr@,
                )
            }
    }

    /// Begin a session.  The entrypoint must already be resolved: a
    /// container can only be created through an engine, and an engine
    /// only exists with exactly one entrypoint value.
    pub fn new(recipe: Recipe, entrypoint: String) -> (engine: GradingEngine)
        ensures
            engine.wf(),
            engine.recipe == recipe,
            engine.entrypoint == entrypoint,
            engine.container == ContainerState::NotCreated,
            engine.next_case == 0,
            engine.passed == 0,
            engine.results@.len() == 0,
    {
        let engine = GradingEngine {
            recipe,
            entrypoint,
            container: ContainerState::NotCreated,
            next_case: 0,
            passed: 0,
            results: Vec::new(),
        };
        proof {
            assert(count_passed(engine.results@) == 0);
        }
        engine
    }

    /// Everything but the container state is unchanged.
    pub open spec fn same_grading(self, other: GradingEngine) -> bool {
        &&& self.recipe == other.recipe
        &&& self.entrypoint == other.entrypoint
        &&& self.next_case == other.next_case
        &&& self.passed == other.passed
        &&& self.results == other.results
    }

    /// The runtime created the session's container.
    pub fn mark_created(&mut self)
        requires
            old(self).container == ContainerState::NotCreated,
        ensures
            final(self).container == ContainerState::Created,
            lifecycle_step_ok(old(self).container, final(self).container),
            final(self).same_grading(*old(self)),
    {
        self.container = ContainerState::Created;
    }

    /// The runtime launched (or relaunched) the in-container process.
    pub fn mark_started(&mut self)
        requires
            old(self).container == ContainerState::Created || old(self).container
                == ContainerState::Exited,
        ensures
            final(self).container == ContainerState::Running,
            lifecycle_step_ok(old(self).container, final(self).container),
            final(self).same_grading(*old(self)),
    {
        self.container = ContainerState::Running;
    }

    /// The in-container process was stopped; the container identity and
    /// its mounted volume persist.
    pub fn mark_exited(&mut self)
        requires
            old(self).container == ContainerState::Running,
        ensures
            final(self).container == ContainerState::Exited,
            lifecycle_step_ok(old(self).container, final(self).container),
            final(self).same_grading(*old(self)),
    {
        self.container = ContainerState::Exited;
    }

    /// The container was torn down.  Terminal: no mark is valid after.
    pub fn mark_removed(&mut self)
        requires
            old(self).container == ContainerState::Created || old(self).container
                == ContainerState::Running || old(self).container == ContainerState::Exited,
        ensures
            final(self).container == ContainerState::Removed,
            lifecycle_step_ok(old(self).container, final(self).container),
            final(self).same_grading(*old(self)),
    {
        self.container = ContainerState::Removed;
    }

    /// Whether an attach stream may be opened now.
    pub fn can_attach(&self) -> (r: bool)
        ensures
            r == (self.container == ContainerState::Running),
    {
        matches!(self.container, ContainerState::Running)
    }

    /// Whether every case of the recipe has been recorded.
    pub fn is_done(&self) -> (r: bool)
        ensures
            r == (self.next_case as int == self.recipe@.len()),
    {
        self.next_case == self.recipe.len()
    }

    /// The scripted stdin of the case about to run, if it declares one.
    pub fn current_input(&self) -> (r: Option<&Vec<u8>>)
        requires
            (self.next_case as int) < self.recipe@.len(),
        ensures
            match r {
                Some(v) => self.recipe@[self.next_case as int].input == Some(v@),
                None => self.recipe@[self.next_case as int].input is None,
            },
    {
        match &self.recipe.cases[self.next_case].input {
            Some(v) => Some(v),
            None => None,
        }
    }

    /// Record the captured output of the case about to run: grade it,
    /// append the result, and advance.  The container must be running —
    /// no case is ever processed against one that is not.
    pub fn record_case(&mut self, stdout: Vec<u8>, stderr: Vec<u8>) -> (passed: bool)
        requires
            old(self).wf(),
            old(self).container == ContainerState::Running,
            (old(self).next_case as int) < old(self).recipe@.len(),
        ensures
            final(self).wf(),
            passed == case_passes(old(self).recipe@[old(self).next_case as int], stdout@, stderr@),
            final(self).recipe == old(self).recipe,
            final(self).entrypoint == old(self).entrypoint,
            final(self).container == old(self).container,
            final(self).next_case == old(self).next_case + 1,
            final(self).passed as int == old(self).passed as int + (if passed {
                1int
            } else {
                0int
            }),
            final(self).results@ == old(self).results@.push(
                GradeResult {
                    case_index: (old(self).next_case + 1) as usize,
                    passed,
                    stdout,
                    stderr,
                },
            ),
    {
        let case_passed = grade_case(&self.recipe.cases[self.next_case], &stdout, &stderr);
        proof {
            assert(self.recipe@[self.next_case as int] == self.recipe.cases@[
            self.next_case as int]@);
        }
        let total = self.recipe.len();
        let index = self.next_case + 1;
        proof {
            assert(index <= total);
        }
        let result = GradeResult { case_index: index, passed: case_passed, stdout, stderr };
        let ghost recorded: GradeResult = result;
        self.results.push(result);
        self.next_case = index;
        if case_passed {
            self.passed = self.passed + 1;
        }
        proof {
            assert(self.results@.drop_last() =~= old(self).results@);
            assert(self.results@.last() == recorded);
            assert(count_passed(self.results@) == count_passed(old(self).results@) + (
            if case_passed {
                1int
            } else {
                0int
            }));
            assert forall|i: int| 0 <= i < self.results@.len() implies {
                &&& (#[trigger] self.results@[i]).case_index as int == i + 1
                &&& self.results@[i].passed == case_passes(
                    self.recipe@[i],
                    self.results@[i].stdout@,
                    self.results@[i].stderr@,
                )
            } by {
                if i < old(self).results@.len() {
                    assert(self.results@[i] == old(self).results@[i]);
                }
            }
        }
        case_passed
    }

    /// How many recorded cases passed so far.
    pub fn passed_count(&self) -> (n: usize)
        ensures
            n == self.passed,
    {
        self.passed
    }

    /// The recorded results, in case order.
    pub fn results(&self) -> (r: &Vec<GradeResult>)
        ensures
            r@ == self.results@,
    {
        &self.results
    }

    /// The aggregate summary line.  Its denominator is the recipe's
    /// size, whatever was recorded.
    pub fn summary(&self) -> (s: String)
        ensures
            s@ == summary_chars(self.passed as nat, self.recipe@.len() as nat),
    {
        summary_line(self.passed as u64, self.recipe.len() as u64)
    }
}

} // verus!

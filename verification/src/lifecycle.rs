//! The sandbox container's lifecycle, and the deterministic values the
//! orchestrator configures a container with.
//!
//! One container is created per grading session, restarted between
//! cases, and removed once at session end.  Its state only ever moves
//! forward through the transition relation below; removal is terminal.

use vstd::prelude::*;
use vstd::string::StringExecFns;

verus! {

/// Where a grading session's one container stands in its life.
#[derive(Clone, Copy, PartialEq, Eq, Structural, Debug)]
pub enum ContainerState {
    /// No container exists yet: the session has not called create.
    NotCreated,
    /// The container exists but its process has never been launched.
    Created,
    /// The in-container process is running; attach is valid only here.
    Running,
    /// The process was stopped; the container identity persists.
    Exited,
    /// The container is gone; no further operation is valid.
    Removed,
}

/// The forward-only transition relation of the container lifecycle:
/// create, start, stop (the first half of a restart), and remove.
pub open spec fn lifecycle_step_ok(from: ContainerState, to: ContainerState) -> bool {
    match (from, to) {
        (ContainerState::NotCreated, ContainerState::Created) => true,
        (ContainerState::Created, ContainerState::Running) => true,
        (ContainerState::Exited, ContainerState::Running) => true,
        (ContainerState::Running, ContainerState::Exited) => true,
        (ContainerState::Created, ContainerState::Removed) => true,
        (ContainerState::Running, ContainerState::Removed) => true,
        (ContainerState::Exited, ContainerState::Removed) => true,
        _ => false,
    }
}

/// Removal is terminal: no transition leaves `Removed`.
pub proof fn lemma_removed_is_terminal(to: ContainerState)
    ensures
        !lifecycle_step_ok(ContainerState::Removed, to),
{
}

/// A session creates its container exactly once: no transition re-enters
/// the pre-creation state.
pub proof fn lemma_never_uncreated(from: ContainerState)
    ensures
        !lifecycle_step_ok(from, ContainerState::NotCreated),
{
}

/// The sandbox image name: a fixed prefix, the language identifier, and
/// a fixed tag.
pub fn image_name(lang: &str) -> (s: String)
    ensures
        s@ == "cheese-grader/runner-"@ + lang@ + ":latest"@,
{
    let mut s = String::from_str("cheese-grader/runner-");
    s.append(lang);
    s.append(":latest");
    s
}

/// The one environment variable carrying the resolved entrypoint into
/// the container.
pub fn entrypoint_env(entrypoint: &str) -> (s: String)
    ensures
        s@ == "ENTRYPOINT="@ + entrypoint@,
{
    let mut s = String::from_str("ENTRYPOINT=");
    s.append(entrypoint);
    s
}

/// The volume specification mounting the candidate's code directory
/// read-only at the fixed in-container path.
pub fn volume_spec(code_directory: &str) -> (s: String)
    ensures
        s@ == code_directory@ + ":/usr/src/code:ro"@,
{
    let mut s = String::from_str("");
    s.append(code_directory);
    s.append(":/usr/src/code:ro");
    proof {
        reveal_strlit("");
        assert(s@ =~= code_directory@ + ":/usr/src/code:ro"@);
    }
    s
}

} // verus!

//! Entrypoint resolution.
//!
//! Given the language's ordered candidate list, the knowledge of which
//! candidates exist in the code directory, and an optional explicit
//! override, pick the single file the in-container launcher will run.
//! The caller performs the filesystem existence checks and hands the
//! outcome in as one flag per candidate; resolution itself is pure.

use vstd::prelude::*;

verus! {

/// Setup could not be completed from the given configuration.
#[derive(Clone, Copy, PartialEq, Eq, Structural, Debug)]
pub enum ConfigurationError {
    /// No explicit entrypoint was given and no candidate file exists.
    NoEntrypoint,
}

/// Resolve the program entrypoint.
///
/// An explicit override always wins, even when it names a file that does
/// not exist: no existence check is made on it.  Otherwise the first
/// candidate whose `present` flag is set is returned; if none is set the
/// resolution fails.
pub fn resolve_entrypoint(
    explicit: Option<String>,
    candidates: &Vec<String>,
    present: &Vec<bool>,
) -> (r: Result<String, ConfigurationError>)
    requires
        candidates@.len() == present@.len(),
    ensures
        match r {
            Ok(entry) => match explicit {
                Some(o) => entry@ == o@,
                None => exists|i: int|
                    #![trigger present@[i]]
                    0 <= i < candidates@.len() && present@[i] && entry@ == candidates@[i]@
                        && (forall|j: int| 0 <= j < i ==> !present@[j]),
            },
            Err(e) => {
                &&& explicit is None
                &&& forall|i: int| 0 <= i < present@.len() ==> !present@[i]
                &&& e == ConfigurationError::NoEntrypoint
            },
        },
{
    match &explicit {
        Some(o) => Ok(o.clone()),
        None => {
            let mut i: usize = 0;
            while i < candidates.len()
                invariant
                    explicit is None,
                    i <= candidates@.len(),
                    candidates@.len() == present@.len(),
                    forall|j: int| 0 <= j < i ==> !present@[j],
                decreases candidates@.len() - i,
            {
                if present[i] {
                    let entry = candidates[i].clone();
                    proof {
                        let wi = i as int;
                        assert(0 <= wi < candidates@.len() && present@[wi] && entry@ == candidates@[wi]@
                            && (forall|j: int| 0 <= j < wi ==> !present@[j]));
                    }
                    return Ok(entry);
                }
                i += 1;
            }
            Err(ConfigurationError::NoEntrypoint)
        },
    }
}

} // verus!

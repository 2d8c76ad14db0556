//! Project names.
use vstd::prelude::*;

use crate::pattern::{pattern_is_match, regex_compiles, regex_matches};

verus! {

/// A project name starts with a letter and holds only letters, digits,
/// hyphens and underscores.
pub const PROJECT_NAME_PATTERN: &'static str = "^[a-zA-Z][a-zA-Z0-9_-]*$";

/// Why a project name was refused.
#[derive(Clone, Copy, Debug, PartialEq, Eq, Structural)]
pub enum ProjectNameError {
    /// The name does not have the form of a project name.
    Invalid,
}

/// Whether `name` is accepted as a project name.
pub open spec fn valid_project_name(name: Seq<char>) -> bool {
    regex_compiles(PROJECT_NAME_PATTERN@) && regex_matches(PROJECT_NAME_PATTERN@, name)
}

/// Checks that `name` can name a new project.
pub fn validate_project_name(name: &str) -> (r: Result<(), ProjectNameError>)
    ensures
        r is Ok <==> valid_project_name(name@),
        r is Err ==> r == Err::<(), ProjectNameError>(ProjectNameError::Invalid),
{
    match pattern_is_match(PROJECT_NAME_PATTERN, name) {
        Some(true) => Ok(()),
        _ => Err(ProjectNameError::Invalid),
    }
}

} // verus!

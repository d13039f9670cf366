//! The change of semantic version that the sorted commits of a repository call for.

use crate::changes::Changes;
use vstd::prelude::*;

verus! {

/// Enum to represent the action for semantic version
#[derive(PartialEq, Debug)]
pub enum SemanticVersion {
    IncrementMajor,
    IncrementMinor,
    IncrementPatch,
    Keep,
}

/// The action that `changes` call for: the kind of the most significant change among them.
pub open spec fn suggested_action(changes: Changes) -> SemanticVersion {
    if changes.major@.len() > 0 {
        SemanticVersion::IncrementMajor
    } else if changes.minor@.len() > 0 {
        SemanticVersion::IncrementMinor
    } else if changes.patch@.len() > 0 {
        SemanticVersion::IncrementPatch
    } else {
        SemanticVersion::Keep
    }
}

/// How [`SemanticVersion::to_string`] words an action.
pub open spec fn action_text(action: SemanticVersion) -> Seq<char> {
    match action {
        SemanticVersion::IncrementMajor => "increment major version"@,
        SemanticVersion::IncrementMinor => "increment minor version"@,
        SemanticVersion::IncrementPatch => "increment patch version"@,
        SemanticVersion::Keep => "keep version"@,
    }
}

impl SemanticVersion {
    /// The action in words, such as "increment major version".
    pub fn to_string(&self) -> (text: String)
        ensures
            text@ == action_text(*self),
    {
        let msg = match self {
            SemanticVersion::IncrementMajor => "increment major version",
            SemanticVersion::IncrementMinor => "increment minor version",
            SemanticVersion::IncrementPatch => "increment patch version",
            SemanticVersion::Keep => "keep version",
        };
        String::from_str(msg)
    }
}

/// Evaluate the changes find in a repository to figure out the semantic version action
///
/// ## Returns
///
/// [`SemanticVersion`] enum for the suggested semantic version change.
pub fn evaluate_changes(changes: Changes) -> (action: SemanticVersion)
    ensures
        action == suggested_action(changes),
{
    if changes.major.len() != 0 {
        return SemanticVersion::IncrementMajor;
    }
    if changes.minor.len() != 0 {
        return SemanticVersion::IncrementMinor;
    }
    if changes.patch.len() != 0 {
        return SemanticVersion::IncrementPatch;
    }
    SemanticVersion::Keep
}

} // verus!

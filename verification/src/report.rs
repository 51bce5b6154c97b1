//! The line that tells a user how the work on a label ended.

use crate::config::optional_text;
use crate::sync::{Operation, Outcome, OutcomeView};
use vstd::prelude::*;

verus! {

/// Whether `operation` copies a file.
pub open spec fn copies(operation: Operation) -> bool {
    operation is ApplySource || operation is ApplyTarget
}

impl OutcomeView {
    /// What is said about `label` after `operation` ended this way, if
    /// anything is. A list passes over labels that are not installed or whose
    /// target is missing; a comparison that found no difference, or that
    /// another program has shown, needs no words.
    pub open spec fn report(self, label: Seq<char>, operation: Operation) -> Option<Seq<char>> {
        match self {
            OutcomeView::UnknownLabel => Some("No config with label '"@ + label + "' found"@),
            OutcomeView::NoTargetForPlatform => if operation is List {
                None
            } else {
                Some("There is no target file for config '"@ + label + "' on this platform"@)
            },
            OutcomeView::TargetMissing => if operation is List {
                None
            } else if copies(operation) {
                Some(
                    "The target file for config '"@ + label
                        + "' could not be found. Use the -c flag to copy anyways."@,
                )
            } else {
                Some("The target file for config '"@ + label + "' could not be found."@)
            },
            OutcomeView::Same => None,
            OutcomeView::Shown => None,
            OutcomeView::Differs { diff } => Some("Diff for '"@ + label + "':\n"@ + diff),
            OutcomeView::Copied { from, to } => Some("Copied '"@ + from + "' to '"@ + to + "'"@),
            OutcomeView::Listed => Some(label),
            OutcomeView::Failed(error) => Some(label + ": "@ + error.message()),
        }
    }
}

impl Outcome {
    /// What is said about `label` after `operation` ended this way, if
    /// anything is.
    pub fn report(&self, label: &str, operation: Operation) -> (r: Option<String>)
        ensures
            optional_text(r) == self@.report(label@, operation),
    {
        let is_list = match operation {
            Operation::List { .. } => true,
            _ => false,
        };
        let is_copy = match operation {
            Operation::ApplySource { .. } => true,
            Operation::ApplyTarget => true,
            _ => false,
        };
        match self {
            Outcome::UnknownLabel => {
                let mut out = "No config with label '".to_owned();
                out.append(label);
                out.append("' found");
                Some(out)
            },
            Outcome::NoTargetForPlatform => {
                if is_list {
                    None
                } else {
                    let mut out = "There is no target file for config '".to_owned();
                    out.append(label);
                    out.append("' on this platform");
                    Some(out)
                }
            },
            Outcome::TargetMissing => {
                if is_list {
                    None
                } else {
                    let mut out = "The target file for config '".to_owned();
                    out.append(label);
                    if is_copy {
                        out.append("' could not be found. Use the -c flag to copy anyways.");
                    } else {
                        out.append("' could not be found.");
                    }
                    Some(out)
                }
            },
            Outcome::Same => None,
            Outcome::Shown => None,
            Outcome::Differs { diff } => {
                let mut out = "Diff for '".to_owned();
                out.append(label);
                out.append("':\n");
                out.append(diff.as_str());
                Some(out)
            },
            Outcome::Copied { from, to } => {
                let mut out = "Copied '".to_owned();
                out.append(from.as_str());
                out.append("' to '");
                out.append(to.as_str());
                out.append("'");
                Some(out)
            },
            Outcome::Listed => Some(label.to_owned()),
            Outcome::Failed(error) => {
                let mut out = label.to_owned();
                out.append(": ");
                let message = error.message();
                out.append(message.as_str());
                Some(out)
            },
        }
    }
}

} // verus!

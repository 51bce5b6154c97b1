//! Comparing and propagating one entry, step by step.
//!
//! Every function here decides from what is known so far. It either asks the
//! caller for the one thing that is missing, with the resolved paths, or it
//! says how the work on the label ended. The caller does what it is asked,
//! records the answer in its [`Observed`] and asks again.

use crate::config::{optional_text, Config, ConfigEntry};
use crate::diff::{diff_texts, differences, patch_text};
use crate::error::{Error, ErrorView};
use crate::host::{
    file_status, is_file, Answer, Host, Metadata, Observed, Request, RequestView,
};
use crate::path::joined;
use vstd::prelude::*;

verus! {

/// What is to be done for a label.
#[derive(Copy, Clone, Debug, PartialEq, Eq, Structural)]
pub enum Operation {
    /// Show how the target differs from the source.
    Diff,
    /// Copy the source over the target. With `copy_nonexistent` the target
    /// need not be there yet.
    ApplySource { copy_nonexistent: bool },
    /// Copy the target over the source.
    ApplyTarget,
    /// Name the label if it is installed on this platform; with
    /// `only_existing`, only if a regular file is at its target.
    List { only_existing: bool },
}

/// How the work on one label ended.
#[derive(Debug, PartialEq, Eq)]
pub enum Outcome {
    /// The store has no entry under the label.
    UnknownLabel,
    /// The entry has no target on this platform.
    NoTargetForPlatform,
    /// The entry has a target on this platform, and no regular file is there.
    TargetMissing,
    /// Source and target hold the same text.
    Same,
    /// Source and target differ; `diff` is the rendered patch.
    Differs { diff: String },
    /// The program that shows differences has run.
    Shown,
    /// The file at `from` was copied over the one at `to`.
    Copied { from: String, to: String },
    /// The label is to be named in the list.
    Listed,
    /// A path could not be resolved, or the file system refused.
    Failed(Error),
}

/// An [`Outcome`] with its texts as sequences of characters.
pub enum OutcomeView {
    UnknownLabel,
    NoTargetForPlatform,
    TargetMissing,
    Same,
    Differs { diff: Seq<char> },
    Shown,
    Copied { from: Seq<char>, to: Seq<char> },
    Listed,
    Failed(ErrorView),
}

impl View for Outcome {
    type V = OutcomeView;

    open spec fn view(&self) -> OutcomeView {
        match self {
            Outcome::UnknownLabel => OutcomeView::UnknownLabel,
            Outcome::NoTargetForPlatform => OutcomeView::NoTargetForPlatform,
            Outcome::TargetMissing => OutcomeView::TargetMissing,
            Outcome::Same => OutcomeView::Same,
            Outcome::Differs { diff } => OutcomeView::Differs { diff: diff@ },
            Outcome::Shown => OutcomeView::Shown,
            Outcome::Copied { from, to } => OutcomeView::Copied { from: from@, to: to@ },
            Outcome::Listed => OutcomeView::Listed,
            Outcome::Failed(error) => OutcomeView::Failed(error@),
        }
    }
}

/// What comes next for a label: a request to the caller, or the end.
#[derive(Debug, PartialEq, Eq)]
pub enum Step {
    Ask(Request),
    Done(Outcome),
}

/// A [`Step`] with its texts as sequences of characters.
pub enum StepView {
    Ask(RequestView),
    Done(OutcomeView),
}

impl View for Step {
    type V = StepView;

    open spec fn view(&self) -> StepView {
        match self {
            Step::Ask(request) => StepView::Ask(request@),
            Step::Done(outcome) => StepView::Done(outcome@),
        }
    }
}

/// The source of `entry` as a path below the store's directory on `host`.
pub open spec fn source_path(entry: ConfigEntry, host: Host) -> Seq<char> {
    joined(host.os, host.base@, entry.source_text())
}

/// The target of `entry` on `host` once a regular file is known to stand
/// there: the path as it was written and the path resolved. Before that, the
/// step that comes instead: the entry has no target here, the target's path
/// cannot be resolved, its metadata is still to be looked up or could not be,
/// or no regular file is there.
pub open spec fn found_target(entry: ConfigEntry, host: Host, seen: Observed) -> Result<
    (Seq<char>, Seq<char>),
    StepView,
> {
    match entry.target_text(host.os) {
        None => Err(StepView::Done(OutcomeView::NoTargetForPlatform)),
        Some(target) => match host.resolved(target) {
            Err(e) => Err(StepView::Done(OutcomeView::Failed(e))),
            Ok(path) => match seen.target {
                None => Err(StepView::Ask(RequestView::Stat { path })),
                Some(metadata) => match file_status(target, metadata) {
                    Err(e) => Err(StepView::Done(OutcomeView::Failed(e))),
                    Ok(found) => if found {
                        Ok((target, path))
                    } else {
                        Err(StepView::Done(OutcomeView::TargetMissing))
                    },
                },
            },
        },
    }
}

/// The text of the target of `entry` on `host`, or the step that comes
/// before it is known. A failed read names the target as it was written.
pub open spec fn target_content(entry: ConfigEntry, host: Host, seen: Observed) -> Result<
    Seq<char>,
    StepView,
> {
    match found_target(entry, host, seen) {
        Err(step) => Err(step),
        Ok((target, path)) => match seen.target_text {
            None => Err(StepView::Ask(RequestView::ReadTarget { path })),
            Some(Err(cause)) => Err(
                StepView::Done(
                    OutcomeView::Failed(ErrorView::ReadFailed { path: target, cause: cause@ }),
                ),
            ),
            Some(Ok(text)) => Ok(text@),
        },
    }
}

/// The text of the source of `entry` on `host`, or the step that comes
/// before it is known. A failed read names the source path before it was
/// resolved.
pub open spec fn source_content(entry: ConfigEntry, host: Host, seen: Observed) -> Result<
    Seq<char>,
    StepView,
> {
    match host.resolved(source_path(entry, host)) {
        Err(e) => Err(StepView::Done(OutcomeView::Failed(e))),
        Ok(path) => match seen.source_text {
            None => Err(StepView::Ask(RequestView::ReadSource { path })),
            Some(Err(cause)) => Err(
                StepView::Done(
                    OutcomeView::Failed(
                        ErrorView::ReadFailed { path: source_path(entry, host), cause: cause@ },
                    ),
                ),
            ),
            Some(Ok(text)) => Ok(text@),
        },
    }
}

/// The next step of showing how the target of `entry` differs from its
/// source. With a `diff_command` that program is run on the two resolved
/// paths, the target first, and owns the display. Without one the target is
/// read, then the source, and the two texts are compared, the source as the
/// text before.
pub open spec fn diff_step(
    entry: ConfigEntry,
    host: Host,
    diff_command: Option<Seq<char>>,
    seen: Observed,
) -> StepView {
    match diff_command {
        Some(program) => match entry.target_text(host.os) {
            None => StepView::Done(OutcomeView::NoTargetForPlatform),
            Some(target) => match host.resolved(target) {
                Err(e) => StepView::Done(OutcomeView::Failed(e)),
                Ok(target_path) => match host.resolved(source_path(entry, host)) {
                    Err(e) => StepView::Done(OutcomeView::Failed(e)),
                    Ok(source) => if seen.shown {
                        StepView::Done(OutcomeView::Shown)
                    } else {
                        StepView::Ask(
                            RequestView::Show { program, target: target_path, source },
                        )
                    },
                },
            },
        },
        None => match target_content(entry, host, seen) {
            Err(step) => step,
            Ok(target) => match source_content(entry, host, seen) {
                Err(step) => step,
                Ok(source) => match differences(source, target) {
                    None => StepView::Done(OutcomeView::Same),
                    Some(diff) => StepView::Done(OutcomeView::Differs { diff }),
                },
            },
        },
    }
}

/// The next step of copying the file written as `from` over the one written
/// as `to`: both paths are resolved, then the copy is asked for, then its
/// result is reported. A failure names the paths as they were written.
pub open spec fn copy_step(host: Host, from: Seq<char>, to: Seq<char>, seen: Observed) -> StepView {
    match host.resolved(from) {
        Err(e) => StepView::Done(OutcomeView::Failed(e)),
        Ok(from_path) => match host.resolved(to) {
            Err(e) => StepView::Done(OutcomeView::Failed(e)),
            Ok(to_path) => match seen.copied {
                None => StepView::Ask(RequestView::Copy { from: from_path, to: to_path }),
                Some(Err(cause)) => StepView::Done(
                    OutcomeView::Failed(ErrorView::CopyFailed { from, to, cause: cause@ }),
                ),
                Some(Ok(_)) => StepView::Done(
                    OutcomeView::Copied { from: from_path, to: to_path },
                ),
            },
        },
    }
}

/// The next step of copying the source of `entry` over its target. Unless
/// `copy_nonexistent` allows a new file, a regular file must be at the target.
pub open spec fn apply_source_step(
    entry: ConfigEntry,
    host: Host,
    copy_nonexistent: bool,
    seen: Observed,
) -> StepView {
    match entry.target_text(host.os) {
        None => StepView::Done(OutcomeView::NoTargetForPlatform),
        Some(target) => if copy_nonexistent {
            copy_step(host, source_path(entry, host), target, seen)
        } else {
            match found_target(entry, host, seen) {
                Err(step) => step,
                Ok(_) => copy_step(host, source_path(entry, host), target, seen),
            }
        },
    }
}

/// The next step of copying the target of `entry` over its source. A regular
/// file must be at the target.
pub open spec fn apply_target_step(entry: ConfigEntry, host: Host, seen: Observed) -> StepView {
    match found_target(entry, host, seen) {
        Err(step) => step,
        Ok((target, _)) => copy_step(host, target, source_path(entry, host), seen),
    }
}

/// The next step of listing `entry`: it is named if it has a target on this
/// platform and, with `only_existing`, a regular file is there.
pub open spec fn list_step(
    entry: ConfigEntry,
    host: Host,
    only_existing: bool,
    seen: Observed,
) -> StepView {
    match entry.target_text(host.os) {
        None => StepView::Done(OutcomeView::NoTargetForPlatform),
        Some(_) => if only_existing {
            match found_target(entry, host, seen) {
                Err(step) => step,
                Ok(_) => StepView::Done(OutcomeView::Listed),
            }
        } else {
            StepView::Done(OutcomeView::Listed)
        },
    }
}

/// The next step of `operation` on `entry`.
pub open spec fn entry_step(
    entry: ConfigEntry,
    host: Host,
    diff_command: Option<Seq<char>>,
    operation: Operation,
    seen: Observed,
) -> StepView {
    match operation {
        Operation::Diff => match found_target(entry, host, seen) {
            Err(step) => step,
            Ok(_) => diff_step(entry, host, diff_command, seen),
        },
        Operation::ApplySource { copy_nonexistent } => apply_source_step(
            entry,
            host,
            copy_nonexistent,
            seen,
        ),
        Operation::ApplyTarget => apply_target_step(entry, host, seen),
        Operation::List { only_existing } => list_step(entry, host, only_existing, seen),
    }
}

/// The next step of `operation` on the entry that `config` has under
/// `label`. A label without an entry ends at once, as an unknown label.
pub open spec fn step_for(
    config: Config,
    host: Host,
    operation: Operation,
    label: Seq<char>,
    seen: Observed,
) -> StepView {
    if config.entries().contains_key(label) {
        entry_step(
            config.entries()[label],
            host,
            optional_text(config.settings().diff_command),
            operation,
            seen,
        )
    } else {
        StepView::Done(OutcomeView::UnknownLabel)
    }
}

/// A text or the step that comes before it, with the texts as sequences of
/// characters.
pub open spec fn text_or_step(r: Result<String, Step>) -> Result<Seq<char>, StepView> {
    match r {
        Ok(text) => Ok(text@),
        Err(step) => Err(step@),
    }
}

/// A target or the step that comes before it, with the texts as sequences
/// of characters.
pub open spec fn target_or_step(r: Result<(String, String), Step>) -> Result<
    (Seq<char>, Seq<char>),
    StepView,
> {
    match r {
        Ok((target, path)) => Ok((target@, path@)),
        Err(step) => Err(step@),
    }
}

/// Finds the target of `entry` on `host`, as far as `seen` tells: the path
/// as written and the resolved path of a regular file that is known to be
/// there, or the step that comes instead.
pub fn find_target(entry: &ConfigEntry, host: &Host, seen: &Observed) -> (r: Result<
    (String, String),
    Step,
>)
    ensures
        target_or_step(r) == found_target(*entry, *host, *seen),
{
    let target = match entry.get_current_target_path(host.os) {
        None => {
            return Err(Step::Done(Outcome::NoTargetForPlatform));
        },
        Some(target) => target,
    };
    let path = match host.resolve(target.as_str()) {
        Err(e) => {
            return Err(Step::Done(Outcome::Failed(e)));
        },
        Ok(path) => path,
    };
    match &seen.target {
        None => Err(Step::Ask(Request::Stat { path })),
        Some(metadata) => match is_file(target.as_str(), metadata) {
            Err(e) => Err(Step::Done(Outcome::Failed(e))),
            Ok(found) => if found {
                Ok((target, path))
            } else {
                Err(Step::Done(Outcome::TargetMissing))
            },
        },
    }
}

/// Copies the file written as `from` over the one written as `to`, as far as
/// `seen` tells: asks for the copy with both paths resolved, or reports how
/// it went.
pub fn copy_file(host: &Host, from: &str, to: &str, seen: &Observed) -> (r: Step)
    ensures
        r@ == copy_step(*host, from@, to@, *seen),
{
    let from_path = match host.resolve(from) {
        Err(e) => {
            return Step::Done(Outcome::Failed(e));
        },
        Ok(path) => path,
    };
    let to_path = match host.resolve(to) {
        Err(e) => {
            return Step::Done(Outcome::Failed(e));
        },
        Ok(path) => path,
    };
    match &seen.copied {
        None => Step::Ask(Request::Copy { from: from_path, to: to_path }),
        Some(Err(cause)) => Step::Done(
            Outcome::Failed(
                Error::CopyFailed { from: from.to_owned(), to: to.to_owned(), cause: cause.clone() },
            ),
        ),
        Some(Ok(_)) => Step::Done(Outcome::Copied { from: from_path, to: to_path }),
    }
}

impl ConfigEntry {
    /// The text of the target on this host, or the step that comes before
    /// it is known. An entry without a target here and a target without a
    /// regular file end the work and are told apart, and neither is a
    /// failure; a file that is there and cannot be read is one.
    pub fn get_current_target_content(&self, host: &Host, seen: &Observed) -> (r: Result<
        String,
        Step,
    >)
        ensures
            text_or_step(r) == target_content(*self, *host, *seen),
    {
        let (target, path) = match find_target(self, host, seen) {
            Err(step) => {
                return Err(step);
            },
            Ok(found) => found,
        };
        match &seen.target_text {
            None => Err(Step::Ask(Request::ReadTarget { path })),
            Some(Err(cause)) => Err(
                Step::Done(Outcome::Failed(Error::ReadFailed { path: target, cause: cause.clone() })),
            ),
            Some(Ok(text)) => Ok(text.clone()),
        }
    }

    /// The text of the source, which lies below the store's directory, or
    /// the step that comes before it is known. A source that cannot be read
    /// is always a failure.
    pub fn get_source_content(&self, host: &Host, seen: &Observed) -> (r: Result<String, Step>)
        ensures
            text_or_step(r) == source_content(*self, *host, *seen),
    {
        let written = self.get_source_path(host.base.as_str(), host.os);
        let path = match host.resolve(written.as_str()) {
            Err(e) => {
                return Err(Step::Done(Outcome::Failed(e)));
            },
            Ok(path) => path,
        };
        match &seen.source_text {
            None => Err(Step::Ask(Request::ReadSource { path })),
            Some(Err(cause)) => Err(
                Step::Done(
                    Outcome::Failed(Error::ReadFailed { path: written, cause: cause.clone() }),
                ),
            ),
            Some(Ok(text)) => Ok(text.clone()),
        }
    }

    /// The next step of showing how the target differs from the source:
    /// through the program `diff_command` if there is one, else by comparing
    /// the two texts.
    pub fn get_diff(&self, host: &Host, diff_command: &Option<String>, seen: &Observed) -> (r:
        Step)
        ensures
            r@ == diff_step(*self, *host, optional_text(*diff_command), *seen),
            r matches Step::Done(Outcome::Differs { diff }) ==> diff@.len() > 0,
    {
        match diff_command {
            Some(program) => {
                let target = match self.get_current_target_path(host.os) {
                    None => {
                        return Step::Done(Outcome::NoTargetForPlatform);
                    },
                    Some(target) => target,
                };
                let target_path = match host.resolve(target.as_str()) {
                    Err(e) => {
                        return Step::Done(Outcome::Failed(e));
                    },
                    Ok(path) => path,
                };
                let written = self.get_source_path(host.base.as_str(), host.os);
                let source = match host.resolve(written.as_str()) {
                    Err(e) => {
                        return Step::Done(Outcome::Failed(e));
                    },
                    Ok(path) => path,
                };
                if seen.shown {
                    Step::Done(Outcome::Shown)
                } else {
                    Step::Ask(
                        Request::Show { program: program.clone(), target: target_path, source },
                    )
                }
            },
            None => {
                let target = match self.get_current_target_content(host, seen) {
                    Err(step) => {
                        return step;
                    },
                    Ok(text) => text,
                };
                let source = match self.get_source_content(host, seen) {
                    Err(step) => {
                        return step;
                    },
                    Ok(text) => text,
                };
                match diff_texts(source.as_str(), target.as_str()) {
                    None => Step::Done(Outcome::Same),
                    Some(diff) => Step::Done(Outcome::Differs { diff }),
                }
            },
        }
    }

    /// The next step of copying the source over the target.
    pub fn apply_source(&self, host: &Host, copy_nonexistent: bool, seen: &Observed) -> (r: Step)
        ensures
            r@ == apply_source_step(*self, *host, copy_nonexistent, *seen),
    {
        let target = match self.get_current_target_path(host.os) {
            None => {
                return Step::Done(Outcome::NoTargetForPlatform);
            },
            Some(target) => target,
        };
        if !copy_nonexistent {
            match find_target(self, host, seen) {
                Err(step) => {
                    return step;
                },
                Ok(_) => {},
            }
        }
        let written = self.get_source_path(host.base.as_str(), host.os);
        copy_file(host, written.as_str(), target.as_str(), seen)
    }

    /// The next step of copying the target over the source.
    pub fn apply_target(&self, host: &Host, seen: &Observed) -> (r: Step)
        ensures
            r@ == apply_target_step(*self, *host, *seen),
    {
        let (target, _) = match find_target(self, host, seen) {
            Err(step) => {
                return step;
            },
            Ok(found) => found,
        };
        let written = self.get_source_path(host.base.as_str(), host.os);
        copy_file(host, target.as_str(), written.as_str(), seen)
    }

    /// The next step of listing this entry.
    pub fn list(&self, host: &Host, only_existing: bool, seen: &Observed) -> (r: Step)
        ensures
            r@ == list_step(*self, *host, only_existing, *seen),
    {
        match self.get_current_target_path(host.os) {
            None => Step::Done(Outcome::NoTargetForPlatform),
            Some(_) => if only_existing {
                match find_target(self, host, seen) {
                    Err(step) => step,
                    Ok(_) => Step::Done(Outcome::Listed),
                }
            } else {
                Step::Done(Outcome::Listed)
            },
        }
    }

    /// The next step of `operation` on this entry.
    pub fn next_step(
        &self,
        host: &Host,
        diff_command: &Option<String>,
        operation: Operation,
        seen: &Observed,
    ) -> (r: Step)
        ensures
            r@ == entry_step(*self, *host, optional_text(*diff_command), operation, *seen),
            r matches Step::Done(Outcome::Differs { diff }) ==> diff@.len() > 0,
    {
        match operation {
            Operation::Diff => match find_target(self, host, seen) {
                Err(step) => step,
                Ok(_) => self.get_diff(host, diff_command, seen),
            },
            Operation::ApplySource { copy_nonexistent } => self.apply_source(
                host,
                copy_nonexistent,
                seen,
            ),
            Operation::ApplyTarget => self.apply_target(host, seen),
            Operation::List { only_existing } => self.list(host, only_existing, seen),
        }
    }
}

impl Config {
    /// The next step of `operation` on `label`: what the caller is asked to
    /// do now, or how the work on the label ended.
    pub fn next_step(&self, host: &Host, operation: Operation, label: &String, seen: &Observed) -> (r:
        Step)
        ensures
            r@ == step_for(*self, *host, operation, label@, *seen),
            r matches Step::Done(Outcome::Differs { diff }) ==> diff@.len() > 0,
    {
        match self.get_entry(label) {
            None => Step::Done(Outcome::UnknownLabel),
            Some(entry) => entry.next_step(
                host,
                &self.get_settings().diff_command,
                operation,
                seen,
            ),
        }
    }
}

/// An answer that may be a failure, with the texts as sequences of characters.
pub open spec fn text_answer(answer: Option<Result<String, String>>) -> Option<
    Result<Seq<char>, Seq<char>>,
> {
    match answer {
        None => None,
        Some(Ok(text)) => Some(Ok(text@)),
        Some(Err(cause)) => Some(Err(cause@)),
    }
}

/// Whether `seen` records what a file system holds that has the regular
/// files `files`, by resolved path: a regular file at `target`, and the
/// texts that stand at `source` and at `target`.
pub open spec fn records(
    seen: Observed,
    files: Map<Seq<char>, Seq<char>>,
    source: Seq<char>,
    target: Seq<char>,
) -> bool {
    &&& files.contains_key(source)
    &&& files.contains_key(target)
    &&& seen.target == Some(Metadata::Found { is_file: true })
    &&& text_answer(seen.target_text) == Some(Ok::<Seq<char>, Seq<char>>(files[target]))
    &&& text_answer(seen.source_text) == Some(Ok::<Seq<char>, Seq<char>>(files[source]))
}

/// An entry without a target on the host's platform ends every operation at
/// once, as having no target there, whatever is recorded: the caller is asked
/// for nothing, so no file is looked at.
pub proof fn lemma_no_target_ends_at_once(
    entry: ConfigEntry,
    host: Host,
    diff_command: Option<Seq<char>>,
    operation: Operation,
    seen: Observed,
)
    requires
        entry.target_text(host.os) is None,
    ensures
        entry_step(entry, host, diff_command, operation, seen) == StepView::Done(
            OutcomeView::NoTargetForPlatform,
        ),
        diff_step(entry, host, diff_command, seen) == StepView::Done(
            OutcomeView::NoTargetForPlatform,
        ),
        target_content(entry, host, seen) == Err::<Seq<char>, StepView>(
            StepView::Done(OutcomeView::NoTargetForPlatform),
        ),
{
}

/// A label that the store does not have ends every operation at once, as an
/// unknown label, whatever is recorded. That end is an outcome like any
/// other: it is the report for this one label.
pub proof fn lemma_unknown_label_ends_at_once(
    config: Config,
    host: Host,
    operation: Operation,
    label: Seq<char>,
    seen: Observed,
)
    requires
        !config.entries().contains_key(label),
    ensures
        step_for(config, host, operation, label, seen) == StepView::Done(OutcomeView::UnknownLabel),
{
}

/// What is decided for a label depends on the entry under that label alone:
/// a store that differs only under other labels decides the same.
pub proof fn lemma_labels_are_independent(
    config: Config,
    other: Config,
    host: Host,
    operation: Operation,
    label: Seq<char>,
    seen: Observed,
)
    requires
        config.settings() == other.settings(),
        config.entries().contains_key(label) == other.entries().contains_key(label),
        config.entries().contains_key(label) ==> config.entries()[label] == other.entries()[label],
    ensures
        step_for(config, host, operation, label, seen) == step_for(
            other,
            host,
            operation,
            label,
            seen,
        ),
{
}

/// Every request asks for something that is not known yet: once it is
/// answered, one part less is empty. So the work on a label ends after five
/// answers at most, and no request is made twice.
pub proof fn lemma_each_request_is_new(
    config: Config,
    host: Host,
    operation: Operation,
    label: Seq<char>,
    seen: Observed,
    request: RequestView,
    answer: Answer,
)
    requires
        step_for(config, host, operation, label, seen) == StepView::Ask(request),
        answer.answers(request),
    ensures
        seen.with(answer).unknowns() + 1 == seen.unknowns(),
{
}

/// A copy is asked for only over a target that is known to be a regular
/// file, unless applying the source was allowed to make a new one. Applying
/// the source copies from the resolved source to the resolved target,
/// applying the target the other way round.
pub proof fn lemma_copy_is_guarded(
    entry: ConfigEntry,
    host: Host,
    diff_command: Option<Seq<char>>,
    operation: Operation,
    seen: Observed,
    from: Seq<char>,
    to: Seq<char>,
)
    requires
        entry_step(entry, host, diff_command, operation, seen) == StepView::Ask(
            RequestView::Copy { from, to },
        ),
    ensures
        operation is ApplySource || operation is ApplyTarget,
        entry.target_text(host.os) is Some,
        operation != (Operation::ApplySource { copy_nonexistent: true }) ==> seen.target == Some(
            Metadata::Found { is_file: true },
        ),
        operation is ApplySource ==> host.resolved(source_path(entry, host)) == Ok::<
            Seq<char>,
            ErrorView,
        >(from) && host.resolved(entry.target_text(host.os)->Some_0) == Ok::<Seq<char>, ErrorView>(
            to,
        ),
        operation is ApplyTarget ==> host.resolved(source_path(entry, host)) == Ok::<
            Seq<char>,
            ErrorView,
        >(to) && host.resolved(entry.target_text(host.os)->Some_0) == Ok::<Seq<char>, ErrorView>(
            from,
        ),
{
}

/// Once a regular file was found at the target and both texts were read, the
/// built-in comparison ends: with no difference where the two texts are the
/// same, else with the rendered patch from the source to the target.
pub proof fn lemma_diff_of_read_texts(
    entry: ConfigEntry,
    host: Host,
    seen: Observed,
    source: Seq<char>,
    target: Seq<char>,
    source_text: Seq<char>,
    target_text: Seq<char>,
)
    requires
        entry.target_text(host.os) is Some,
        host.resolved(entry.target_text(host.os)->Some_0) == Ok::<Seq<char>, ErrorView>(target),
        host.resolved(source_path(entry, host)) == Ok::<Seq<char>, ErrorView>(source),
        seen.target == Some(Metadata::Found { is_file: true }),
        text_answer(seen.target_text) == Some(Ok::<Seq<char>, Seq<char>>(target_text)),
        text_answer(seen.source_text) == Some(Ok::<Seq<char>, Seq<char>>(source_text)),
    ensures
        source_text == target_text ==> entry_step(entry, host, None, Operation::Diff, seen)
            == StepView::Done(OutcomeView::Same),
        source_text != target_text ==> entry_step(entry, host, None, Operation::Diff, seen)
            == StepView::Done(
            OutcomeView::Differs { diff: patch_text(source_text, target_text) },
        ),
{
}

/// Applying the source and then comparing finds no difference. Where
/// applying the source asks for a copy from `from` to `to`, and that copy
/// leaves at `to` the text that stands at `from`, a comparison that reads the
/// two files afterwards ends with no difference.
pub proof fn lemma_apply_source_then_diff_is_same(
    entry: ConfigEntry,
    host: Host,
    copy_nonexistent: bool,
    before: Observed,
    files: Map<Seq<char>, Seq<char>>,
    from: Seq<char>,
    to: Seq<char>,
    after: Observed,
)
    requires
        entry_step(entry, host, None, Operation::ApplySource { copy_nonexistent }, before)
            == StepView::Ask(RequestView::Copy { from, to }),
        files.contains_key(from),
        records(after, files.insert(to, files[from]), from, to),
    ensures
        entry_step(entry, host, None, Operation::Diff, after) == StepView::Done(OutcomeView::Same),
{
    let target = entry.target_text(host.os)->Some_0;
    assert(host.resolved(source_path(entry, host)) == Ok::<Seq<char>, ErrorView>(from));
    assert(host.resolved(target) == Ok::<Seq<char>, ErrorView>(to));
    let held = files.insert(to, files[from]);
    assert(held[to] == files[from]);
    assert(held[from] == files[from]);
    lemma_diff_of_read_texts(entry, host, after, from, to, held[from], held[to]);
}

} // verus!

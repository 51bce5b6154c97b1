//! The machine a store is used on, and what its file system answered.
//!
//! Nothing here reads a file. A caller looks, reads and copies where it is
//! asked to, and records what came back in an [`Observed`].

use crate::config::optional_text;
use crate::error::{Error, ErrorView};
use crate::os::OS;
use crate::path::{expand_tilde_with, expansion, home_dir, path_result_view};
use vstd::prelude::*;

verus! {

/// Where a store is used: the platform, the directory that holds the store's
/// document, and the user's home directory if there is one.
#[derive(Debug, PartialEq, Eq)]
pub struct Host {
    pub os: OS,
    pub base: String,
    pub home: Option<String>,
}

impl Host {
    /// The path that `path` stands for on this host: a leading home marker
    /// is replaced by the home directory, any other path is left as it is.
    pub open spec fn resolved(&self, path: Seq<char>) -> Result<Seq<char>, ErrorView> {
        expansion(self.os, optional_text(self.home), path)
    }

    /// The host with the platform `os` and the store's directory `base`; the
    /// home directory is the one the user has now.
    pub fn detect(os: OS, base: String) -> (r: Host)
        ensures
            r.os == os,
            r.base == base,
    {
        Host { os, base, home: home_dir() }
    }

    /// Resolves `path` on this host.
    pub fn resolve(&self, path: &str) -> (r: Result<String, Error>)
        ensures
            path_result_view(r) == self.resolved(path@),
    {
        match &self.home {
            Some(home) => expand_tilde_with(path, Some(home.as_str()), self.os),
            None => expand_tilde_with(path, None, self.os),
        }
    }
}

/// What looking up the metadata of a path gave.
#[derive(Debug, PartialEq, Eq)]
pub enum Metadata {
    /// Something is there; `is_file` says whether it is a regular file.
    Found { is_file: bool },
    /// Nothing is there.
    NotFound,
    /// The lookup failed for another reason.
    Failed { cause: String },
}

/// Whether a regular file stands at `path`, or why that cannot be told. A
/// path under which nothing was found holds no file, which is no failure.
pub open spec fn file_status(path: Seq<char>, metadata: Metadata) -> Result<bool, ErrorView> {
    match metadata {
        Metadata::Found { is_file } => Ok(is_file),
        Metadata::NotFound => Ok(false),
        Metadata::Failed { cause } => Err(ErrorView::ReadFailed { path, cause: cause@ }),
    }
}

/// An answer or a failure, with the failure's texts as sequences of characters.
pub open spec fn status_view(r: Result<bool, Error>) -> Result<bool, ErrorView> {
    match r {
        Ok(b) => Ok(b),
        Err(e) => Err(e@),
    }
}

/// Decides from the metadata found under `path` whether a regular file
/// stands there.
pub fn is_file(path: &str, metadata: &Metadata) -> (r: Result<bool, Error>)
    ensures
        status_view(r) == file_status(path@, *metadata),
{
    match metadata {
        Metadata::Found { is_file } => Ok(*is_file),
        Metadata::NotFound => Ok(false),
        Metadata::Failed { cause } => Err(
            Error::ReadFailed { path: path.to_owned(), cause: cause.clone() },
        ),
    }
}

/// What a caller has found out so far while working on one label. Each part
/// is empty until the caller was asked for it and has the answer.
#[derive(Debug, PartialEq, Eq)]
pub struct Observed {
    /// The metadata of the target.
    pub target: Option<Metadata>,
    /// The text of the target, or why it could not be read.
    pub target_text: Option<Result<String, String>>,
    /// The text of the source, or why it could not be read.
    pub source_text: Option<Result<String, String>>,
    /// Whether the program that shows differences has run.
    pub shown: bool,
    /// Whether the copy was made, or why it could not be.
    pub copied: Option<Result<(), String>>,
}

/// One answer of the file system to a [`Request`].
#[derive(Debug, PartialEq, Eq)]
pub enum Answer {
    /// The metadata of the target.
    Metadata(Metadata),
    /// The text of the target, or why it could not be read.
    TargetText(Result<String, String>),
    /// The text of the source, or why it could not be read.
    SourceText(Result<String, String>),
    /// The program that shows differences has run.
    Shown,
    /// The copy was made, or why it could not be.
    Copied(Result<(), String>),
}

impl Answer {
    /// Whether this is the kind of answer that `request` asks for.
    pub open spec fn answers(self, request: RequestView) -> bool {
        match request {
            RequestView::Stat { .. } => self is Metadata,
            RequestView::ReadTarget { .. } => self is TargetText,
            RequestView::ReadSource { .. } => self is SourceText,
            RequestView::Show { .. } => self is Shown,
            RequestView::Copy { .. } => self is Copied,
        }
    }
}

impl Observed {
    /// Nothing found out yet.
    pub open spec fn nothing() -> Observed {
        Observed { target: None, target_text: None, source_text: None, shown: false, copied: None }
    }

    /// What is known once `answer` has come in: the part that it answers
    /// holds it, every other part is as before.
    pub open spec fn with(self, answer: Answer) -> Observed {
        match answer {
            Answer::Metadata(metadata) => Observed { target: Some(metadata), ..self },
            Answer::TargetText(text) => Observed { target_text: Some(text), ..self },
            Answer::SourceText(text) => Observed { source_text: Some(text), ..self },
            Answer::Shown => Observed { shown: true, ..self },
            Answer::Copied(result) => Observed { copied: Some(result), ..self },
        }
    }

    /// How many parts are still empty.
    pub open spec fn unknowns(self) -> nat {
        let target: nat = if self.target is None { 1 } else { 0 };
        let target_text: nat = if self.target_text is None { 1 } else { 0 };
        let source_text: nat = if self.source_text is None { 1 } else { 0 };
        let shown: nat = if self.shown { 0 } else { 1 };
        let copied: nat = if self.copied is None { 1 } else { 0 };
        target + target_text + source_text + shown + copied
    }

    /// Nothing found out yet.
    pub fn new() -> (r: Observed)
        ensures
            r == Observed::nothing(),
    {
        Observed { target: None, target_text: None, source_text: None, shown: false, copied: None }
    }

    /// Records `answer`.
    pub fn record(&mut self, answer: Answer)
        ensures
            *final(self) == old(self).with(answer),
    {
        match answer {
            Answer::Metadata(metadata) => {
                self.target = Some(metadata);
            },
            Answer::TargetText(text) => {
                self.target_text = Some(text);
            },
            Answer::SourceText(text) => {
                self.source_text = Some(text);
            },
            Answer::Shown => {
                self.shown = true;
            },
            Answer::Copied(result) => {
                self.copied = Some(result);
            },
        }
    }
}

/// What a caller is asked to do next, with every path resolved.
#[derive(Debug, PartialEq, Eq)]
pub enum Request {
    /// Look up the metadata of the target at `path`.
    Stat { path: String },
    /// Read the text of the target at `path`.
    ReadTarget { path: String },
    /// Read the text of the source at `path`.
    ReadSource { path: String },
    /// Run `program` on the target and the source, in that order, and let it
    /// show the differences.
    Show { program: String, target: String, source: String },
    /// Copy the file at `from` over the one at `to`.
    Copy { from: String, to: String },
}

/// A [`Request`] with its texts as sequences of characters.
pub enum RequestView {
    Stat { path: Seq<char> },
    ReadTarget { path: Seq<char> },
    ReadSource { path: Seq<char> },
    Show { program: Seq<char>, target: Seq<char>, source: Seq<char> },
    Copy { from: Seq<char>, to: Seq<char> },
}

impl View for Request {
    type V = RequestView;

    open spec fn view(&self) -> RequestView {
        match self {
            Request::Stat { path } => RequestView::Stat { path: path@ },
            Request::ReadTarget { path } => RequestView::ReadTarget { path: path@ },
            Request::ReadSource { path } => RequestView::ReadSource { path: path@ },
            Request::Show { program, target, source } => RequestView::Show {
                program: program@,
                target: target@,
                source: source@,
            },
            Request::Copy { from, to } => RequestView::Copy { from: from@, to: to@ },
        }
    }
}

} // verus!

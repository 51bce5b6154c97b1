//! What can go wrong while a store is built or one label is worked on.

use vstd::prelude::*;

verus! {

/// A failure of one path, one file or one name. It is reported where it
/// struck and ends nothing else.
#[derive(Debug, PartialEq, Eq)]
pub enum Error {
    /// `path` begins with the home marker and no home directory is known.
    HomeNotFound { path: String },
    /// Looking at or reading the file at `path` failed with `cause`.
    ReadFailed { path: String, cause: String },
    /// Copying `from` over `to` failed with `cause`.
    CopyFailed { from: String, to: String, cause: String },
    /// A target was written for `name`, which names no supported platform.
    UnknownPlatform { name: String },
}

/// An [`Error`] with its texts as sequences of characters.
pub enum ErrorView {
    HomeNotFound { path: Seq<char> },
    ReadFailed { path: Seq<char>, cause: Seq<char> },
    CopyFailed { from: Seq<char>, to: Seq<char>, cause: Seq<char> },
    UnknownPlatform { name: Seq<char> },
}

impl View for Error {
    type V = ErrorView;

    open spec fn view(&self) -> ErrorView {
        match self {
            Error::HomeNotFound { path } => ErrorView::HomeNotFound { path: path@ },
            Error::ReadFailed { path, cause } => ErrorView::ReadFailed {
                path: path@,
                cause: cause@,
            },
            Error::CopyFailed { from, to, cause } => ErrorView::CopyFailed {
                from: from@,
                to: to@,
                cause: cause@,
            },
            Error::UnknownPlatform { name } => ErrorView::UnknownPlatform { name: name@ },
        }
    }
}

impl ErrorView {
    /// The sentence that reports the failure: what was attempted on which
    /// path and, where the file system gave one, the cause after a colon.
    pub open spec fn message(self) -> Seq<char> {
        match self {
            ErrorView::HomeNotFound { path } => "Failed to find home directory for path '"@ + path
                + "'"@,
            ErrorView::ReadFailed { path, cause } => "Failed to read file at '"@ + path + "': "@
                + cause,
            ErrorView::CopyFailed { from, to, cause } => "Failed to copy '"@ + from + "' to '"@ + to
                + "': "@ + cause,
            ErrorView::UnknownPlatform { name } => "Unknown platform '"@ + name
                + "', expected one of 'linux', 'windows', 'macos'"@,
        }
    }
}

impl Error {
    /// The sentence that reports the failure.
    pub fn message(&self) -> (r: String)
        ensures
            r@ == self@.message(),
    {
        match self {
            Error::HomeNotFound { path } => {
                let mut out = "Failed to find home directory for path '".to_owned();
                out.append(path.as_str());
                out.append("'");
                out
            },
            Error::ReadFailed { path, cause } => {
                let mut out = "Failed to read file at '".to_owned();
                out.append(path.as_str());
                out.append("': ");
                out.append(cause.as_str());
                out
            },
            Error::CopyFailed { from, to, cause } => {
                let mut out = "Failed to copy '".to_owned();
                out.append(from.as_str());
                out.append("' to '");
                out.append(to.as_str());
                out.append("': ");
                out.append(cause.as_str());
                out
            },
            Error::UnknownPlatform { name } => {
                let mut out = "Unknown platform '".to_owned();
                out.append(name.as_str());
                out.append("', expected one of 'linux', 'windows', 'macos'");
                out
            },
        }
    }
}

} // verus!

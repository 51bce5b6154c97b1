//! Keeps per-platform copies of configuration files in step with one tracked
//! source copy.
//!
//! A [`Config`] maps labels to entries. Each [`ConfigEntry`] has a source
//! below the store's directory and, per [`OS`], the path where the file is
//! installed. For a label the crate shows how the installed file differs from
//! the source, or copies the one over the other.
//!
//! The crate decides; it never touches the file system itself. Asked for the
//! next [`Step`] on a label, it either names the one thing the caller is to
//! do now, with every path resolved, or says how the work ended. The caller
//! looks, reads, copies and spawns, records each [`Answer`] and asks again. A
//! [`Batch`] does this for one label after the other.

pub mod batch;
pub mod config;
pub mod diff;
pub mod error;
pub mod host;
pub mod os;
pub mod path;
pub mod report;
pub mod sync;

pub use batch::Batch;
pub use config::{Config, ConfigEntry, Configuration};
pub use error::Error;
pub use host::{is_file, Answer, Host, Metadata, Observed, Request};
pub use os::OS;
pub use path::{expand_tilde, expand_tilde_with, join};
pub use sync::{Operation, Outcome, Step};

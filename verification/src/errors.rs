//! The errors an update check can run into. None of them ever reaches the
//! host program as a return value: the flow logic turns each into a
//! user-visible diagnostic message instead.

use vstd::prelude::*;

verus! {

/// Everything that can go wrong during one update check.
#[derive(Debug, Clone, PartialEq, Eq)]
pub enum NotifyError {
    /// The platform could not supply a per-user cache directory.
    DirectoryResolution,
    /// A filesystem operation on the cache marker failed; the payload is the
    /// reported reason.
    Filesystem(String),
    /// The configured repository URL is not of the form
    /// `https://github.com/{owner}/{repo}`.
    InvalidRepoUrl,
    /// The HTTP fetch failed; the payload is the reported reason.
    Transport(String),
    /// The fetched body was malformed or missed the expected field.
    Parse(String),
}

/// The diagnostic text of an error.
pub open spec fn spec_message(e: NotifyError) -> Seq<char> {
    match e {
        NotifyError::DirectoryResolution => "Could not get project directory"@,
        NotifyError::Filesystem(m) => m@,
        NotifyError::InvalidRepoUrl => "Invalid GitHub repo url"@,
        NotifyError::Transport(m) => m@,
        NotifyError::Parse(m) => m@,
    }
}

impl NotifyError {
    /// The diagnostic text shown to the user for this error.
    pub fn message(&self) -> (r: String)
        ensures
            r@ == spec_message(*self),
    {
        match self {
            NotifyError::DirectoryResolution => String::from_str("Could not get project directory"),
            NotifyError::Filesystem(m) => m.clone(),
            NotifyError::InvalidRepoUrl => String::from_str("Invalid GitHub repo url"),
            NotifyError::Transport(m) => m.clone(),
            NotifyError::Parse(m) => m.clone(),
        }
    }
}

} // verus!

//! What can stop a launch, and how it is reported.

use vstd::prelude::*;
use vstd::string::*;
use crate::platform::{supported_keys, supported_platforms};
use crate::text::{join_texts, joined, lemma_joined_holds_each_part, occurs_at};

verus! {

/// The exit code of a launcher that stopped before or instead of handing on
/// the child's own end.
pub const FAILURE_EXIT_CODE: i32 = 1;

/// A failure that ends the run. None is retried.
#[derive(Debug, Clone, PartialEq, Eq)]
pub enum LaunchError {
    /// No binary is built for the host's platform key.
    UnsupportedPlatform { key: String },
    /// Nothing lies at the path where the binary is expected.
    BinaryNotFound { path: String },
    /// Something lies at the path, but it cannot be read or executed.
    BinaryNotAccessible { path: String },
    /// The operating system refused to start the child.
    ChildSpawnFailure { reason: String },
    /// Waiting for the child failed.
    ChildWaitFailure { reason: String },
}

/// A [`LaunchError`] with its texts as sequences of characters.
pub ghost enum LaunchErrorView {
    UnsupportedPlatform { key: Seq<char> },
    BinaryNotFound { path: Seq<char> },
    BinaryNotAccessible { path: Seq<char> },
    ChildSpawnFailure { reason: Seq<char> },
    ChildWaitFailure { reason: Seq<char> },
}

impl View for LaunchError {
    type V = LaunchErrorView;

    open spec fn view(&self) -> LaunchErrorView {
        match self {
            LaunchError::UnsupportedPlatform { key } => LaunchErrorView::UnsupportedPlatform {
                key: key@,
            },
            LaunchError::BinaryNotFound { path } => LaunchErrorView::BinaryNotFound { path: path@ },
            LaunchError::BinaryNotAccessible { path } => LaunchErrorView::BinaryNotAccessible {
                path: path@,
            },
            LaunchError::ChildSpawnFailure { reason } => LaunchErrorView::ChildSpawnFailure {
                reason: reason@,
            },
            LaunchError::ChildWaitFailure { reason } => LaunchErrorView::ChildWaitFailure {
                reason: reason@,
            },
        }
    }
}

/// The supported keys as the diagnostic lists them.
pub open spec fn supported_listing() -> Seq<char> {
    joined(supported_keys(), ", "@)
}

/// The diagnostic of an error. That of an unsupported platform lists every
/// supported key; those about the binary name the path that was tried.
pub open spec fn message_of(e: LaunchErrorView) -> Seq<char> {
    match e {
        LaunchErrorView::UnsupportedPlatform { key } => "Incompatible platform. Nonodo supports: "@
            + supported_listing(),
        LaunchErrorView::BinaryNotFound { path } => "No nonodo binary found: "@ + path,
        LaunchErrorView::BinaryNotAccessible { path } => "No access: "@ + path,
        LaunchErrorView::ChildSpawnFailure { reason } => "Could not start nonodo: "@ + reason,
        LaunchErrorView::ChildWaitFailure { reason } => "Could not wait for nonodo: "@ + reason,
    }
}

impl LaunchError {
    /// The diagnostic to print for this error.
    pub fn message(&self) -> (text: String)
        ensures
            text@ == message_of(self@),
    {
        match self {
            LaunchError::UnsupportedPlatform { key } => {
                let keys = supported_platforms();
                let listing = join_texts(&keys, ", ");
                "Incompatible platform. Nonodo supports: ".to_owned().concat(listing.as_str())
            },
            LaunchError::BinaryNotFound { path } => "No nonodo binary found: ".to_owned().concat(
                path.as_str(),
            ),
            LaunchError::BinaryNotAccessible { path } => "No access: ".to_owned().concat(
                path.as_str(),
            ),
            LaunchError::ChildSpawnFailure { reason } => "Could not start nonodo: ".to_owned().concat(
                reason.as_str(),
            ),
            LaunchError::ChildWaitFailure { reason } => "Could not wait for nonodo: ".to_owned().concat(
                reason.as_str(),
            ),
        }
    }

    /// A copy of this error with the same texts.
    pub fn duplicate(&self) -> (copy: LaunchError)
        ensures
            copy@ == self@,
    {
        match self {
            LaunchError::UnsupportedPlatform { key } => LaunchError::UnsupportedPlatform {
                key: key.clone(),
            },
            LaunchError::BinaryNotFound { path } => LaunchError::BinaryNotFound {
                path: path.clone(),
            },
            LaunchError::BinaryNotAccessible { path } => LaunchError::BinaryNotAccessible {
                path: path.clone(),
            },
            LaunchError::ChildSpawnFailure { reason } => LaunchError::ChildSpawnFailure {
                reason: reason.clone(),
            },
            LaunchError::ChildWaitFailure { reason } => LaunchError::ChildWaitFailure {
                reason: reason.clone(),
            },
        }
    }
}

/// The diagnostic of an unsupported platform holds each supported key,
/// whatever the key that was refused.
pub proof fn lemma_unsupported_message_lists_every_key(key: Seq<char>, i: int)
    requires
        0 <= i < supported_keys().len(),
    ensures
        exists|at: int|
            occurs_at(
                supported_keys()[i],
                message_of(LaunchErrorView::UnsupportedPlatform { key }),
                at,
            ),
{
    let head = "Incompatible platform. Nonodo supports: "@;
    let listing = supported_listing();
    let whole = message_of(LaunchErrorView::UnsupportedPlatform { key });
    let part = supported_keys()[i];
    lemma_joined_holds_each_part(supported_keys(), ", "@, i);
    let at = choose|at: int| occurs_at(part, listing, at);
    let shifted = head.len() + at;
    assert(whole.subrange(shifted, shifted + part.len()) == listing.subrange(at, at + part.len()));
    assert(occurs_at(part, whole, shifted));
}

} // verus!

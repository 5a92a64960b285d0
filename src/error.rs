use vstd::prelude::*;

verus! {

/// Why the launcher could not hand the invocation over.
#[derive(Debug, PartialEq, Eq)]
pub enum LaunchError {
    /// The invocation does not ask for the tool: a usage hint is due.
    IntentNotRecognized,
    /// No installation was found at any candidate location.
    NotFound,
    /// A target was found but could not be started; holds the system's message.
    SpawnFailed(String),
}

} // verus!

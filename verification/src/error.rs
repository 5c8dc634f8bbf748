//! Error taxonomy: fatal configuration errors at startup, per-message
//! extraction errors, and enforcement errors from the chat platform.

use vstd::prelude::*;

verus! {

/// A fatal error while building the moderation policy from configuration
/// values; the process is expected to terminate on any of these.
#[derive(Debug, Clone, PartialEq, Eq)]
pub enum ConfigError {
    /// No chat entry was supplied; at least one is required.
    NoGroup,
    /// No keyword group was supplied; at least one is required.
    NoKeywordsGroup,
    /// An action token was not one of the recognized tokens
    /// (`kick`, `ban`, `none`, case-insensitively); carries the raw token.
    ActionError(String),
}

/// A per-message failure while extracting text from an image; it aborts
/// only that message's pipeline.
#[derive(Debug, Clone, PartialEq, Eq)]
pub enum ExtractionError {
    /// Storing or removing the transient image failed.
    IoFailure,
    /// The external recognizer exited abnormally or produced invalid text.
    EngineFailure,
}

} // verus!

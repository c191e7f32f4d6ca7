//! Errors of the chat library.
use vstd::prelude::*;

verus! {

/// Errors reported by chat operations.
#[derive(Debug)]
pub enum ChatError {
    ChatNotFound,
    MessageNotFound,
    ModelNotFound(String),
    ProjectNotFound(String),
    McpNotConnected(String),
    McpIdConflict(String),
    RoleNameConflict(String),
    RoleNotFound(String),
    Internal(String),
    InvalidState(String),
}

} // verus!

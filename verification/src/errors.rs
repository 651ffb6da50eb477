//! The failures that can end an invocation, and the text each one carries.
//! Every failure is terminal: nothing is retried.

use crate::text::{append_vec, str_to_bytes};
use vstd::prelude::*;
use vstd::string::StringSliceAdditionalSpecFns;

verus! {

/// Why a workflow invocation failed.
pub enum FlowError {
    /// The branch query failed and the repository already has commits.
    BranchUnresolved,
    /// The staged-file query reported a non-zero exit.
    StagedListFailed,
    /// The staged-diff query reported a non-zero exit.
    DiffFailed,
    /// No API key was found under the fixed store identifiers.
    KeyMissing,
    /// The remote response carried no message text where one was expected.
    MessageMissing,
    /// The commit invocation reported a non-zero exit; its captured error
    /// stream is kept.
    CommitFailed { stderr: Vec<u8> },
    /// An underlying operation broke off (a process could not be spawned, or
    /// the transport failed); its own message is kept.
    Interrupted { note: Vec<u8> },
}

/// The mathematical shape of a `FlowError`.
pub enum FlowErrorModel {
    BranchUnresolved,
    StagedListFailed,
    DiffFailed,
    KeyMissing,
    MessageMissing,
    CommitFailed { stderr: Seq<u8> },
    Interrupted { note: Seq<u8> },
}

impl View for FlowError {
    type V = FlowErrorModel;

    open spec fn view(&self) -> FlowErrorModel {
        match self {
            FlowError::BranchUnresolved => FlowErrorModel::BranchUnresolved,
            FlowError::StagedListFailed => FlowErrorModel::StagedListFailed,
            FlowError::DiffFailed => FlowErrorModel::DiffFailed,
            FlowError::KeyMissing => FlowErrorModel::KeyMissing,
            FlowError::MessageMissing => FlowErrorModel::MessageMissing,
            FlowError::CommitFailed { stderr } => FlowErrorModel::CommitFailed {
                stderr: stderr@,
            },
            FlowError::Interrupted { note } => FlowErrorModel::Interrupted { note: note@ },
        }
    }
}

/// The text reported for each failure.
pub open spec fn error_note(e: FlowErrorModel) -> Seq<u8> {
    match e {
        FlowErrorModel::BranchUnresolved => "Failed to get current branch".spec_bytes(),
        FlowErrorModel::StagedListFailed => "Failed to get staged files".spec_bytes(),
        FlowErrorModel::DiffFailed => "Failed to get git diff for staged changes".spec_bytes(),
        FlowErrorModel::KeyMissing => "API key not found. Please set it using 'quickcommit set-api-key'".spec_bytes(),
        FlowErrorModel::MessageMissing => "Failed to extract commit message from API response".spec_bytes(),
        FlowErrorModel::CommitFailed { stderr } => "Failed to commit changes: ".spec_bytes()
            + stderr,
        FlowErrorModel::Interrupted { note } => note,
    }
}

/// Renders the text reported for a failure.
pub fn error_text(e: &FlowError) -> (r: Vec<u8>)
    ensures
        r@ == error_note(e@),
{
    match e {
        FlowError::BranchUnresolved => str_to_bytes("Failed to get current branch"),
        FlowError::StagedListFailed => str_to_bytes("Failed to get staged files"),
        FlowError::DiffFailed => str_to_bytes("Failed to get git diff for staged changes"),
        FlowError::KeyMissing => str_to_bytes(
            "API key not found. Please set it using 'quickcommit set-api-key'",
        ),
        FlowError::MessageMissing => str_to_bytes(
            "Failed to extract commit message from API response",
        ),
        FlowError::CommitFailed { stderr } => {
            let mut r = str_to_bytes("Failed to commit changes: ");
            append_vec(&mut r, stderr);
            r
        },
        FlowError::Interrupted { note } => {
            let mut r: Vec<u8> = Vec::new();
            append_vec(&mut r, note);
            proof {
                assert(Seq::<u8>::empty() + note@ =~= note@);
            }
            r
        },
    }
}

} // verus!

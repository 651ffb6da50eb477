//! The auto-commit workflow as a state machine. Each non-terminal state
//! names the one outside operation — a repository query, a store lookup, the
//! remote completion, the commit — whose outcome the workflow waits for;
//! `advance` consumes that outcome and yields the next state. The driver
//! performs the named operation and feeds its outcome back; every decision
//! between two operations is made, and proved, here.

use crate::diff::{build_diff_context, diff_context};
use crate::errors::{FlowError, FlowErrorModel};
use crate::prompt::{build_prompt, prompt_text};
use crate::text::{lines_of, split_lines, str_to_bytes, trim_bytes, trimmed};
use vstd::prelude::*;
use vstd::string::StringSliceAdditionalSpecFns;

verus! {

broadcast use crate::text::bytes_deep_view_is_view;

/// Where an auto-commit invocation stands.
pub enum FlowState {
    /// Waiting for the branch query (the abbreviated current reference).
    ResolveBranch,
    /// The branch query failed or came back blank; waiting for the history
    /// probe that tells an empty repository from a broken one.
    CheckHistory,
    /// Waiting for the staged-file listing.
    ListFiles { branch: Vec<u8> },
    /// Waiting for the secret store's answer for the API key.
    FetchKey { branch: Vec<u8>, files: Vec<Vec<u8>> },
    /// Waiting for the staged diff.
    FetchDiff { branch: Vec<u8>, files: Vec<Vec<u8>>, key: Vec<u8> },
    /// Waiting for the remote completion; the request carries this key and
    /// this prompt.
    RequestMessage { key: Vec<u8>, prompt: Vec<u8> },
    /// Waiting for the commit invocation with exactly this message.
    RunCommit { message: Vec<u8> },
    /// Terminal: the commit was applied with this message.
    Committed { message: Vec<u8> },
    /// Terminal: nothing was staged, so nothing was done — a success.
    NothingToCommit,
    /// Terminal: the invocation failed.
    Failed { error: FlowError },
}

/// The mathematical shape of a `FlowState`.
pub enum FlowStateModel {
    ResolveBranch,
    CheckHistory,
    ListFiles { branch: Seq<u8> },
    FetchKey { branch: Seq<u8>, files: Seq<Seq<u8>> },
    FetchDiff { branch: Seq<u8>, files: Seq<Seq<u8>>, key: Seq<u8> },
    RequestMessage { key: Seq<u8>, prompt: Seq<u8> },
    RunCommit { message: Seq<u8> },
    Committed { message: Seq<u8> },
    NothingToCommit,
    Failed { error: FlowErrorModel },
}

impl View for FlowState {
    type V = FlowStateModel;

    open spec fn view(&self) -> FlowStateModel {
        match self {
            FlowState::ResolveBranch => FlowStateModel::ResolveBranch,
            FlowState::CheckHistory => FlowStateModel::CheckHistory,
            FlowState::ListFiles { branch } => FlowStateModel::ListFiles { branch: branch@ },
            FlowState::FetchKey { branch, files } => FlowStateModel::FetchKey {
                branch: branch@,
                files: files.deep_view(),
            },
            FlowState::FetchDiff { branch, files, key } => FlowStateModel::FetchDiff {
                branch: branch@,
                files: files.deep_view(),
                key: key@,
            },
            FlowState::RequestMessage { key, prompt } => FlowStateModel::RequestMessage {
                key: key@,
                prompt: prompt@,
            },
            FlowState::RunCommit { message } => FlowStateModel::RunCommit { message: message@ },
            FlowState::Committed { message } => FlowStateModel::Committed { message: message@ },
            FlowState::NothingToCommit => FlowStateModel::NothingToCommit,
            FlowState::Failed { error } => FlowStateModel::Failed { error: error@ },
        }
    }
}

/// The outcome of the one outside operation a state waits for.
pub enum FlowEvent {
    /// The branch query ended: whether it exited cleanly, and its output.
    BranchQueried { ok: bool, stdout: Vec<u8> },
    /// The history probe ended: whether the repository has no commits.
    HistoryQueried { empty: bool },
    /// The staged-file listing ended.
    FilesQueried { ok: bool, stdout: Vec<u8> },
    /// The secret store answered, with the key if one is stored.
    KeyLooked { key: Option<Vec<u8>> },
    /// The staged-diff query ended.
    DiffQueried { ok: bool, stdout: Vec<u8> },
    /// The remote completion arrived and extraction ran, with the trimmed
    /// message if the response carried one.
    MessageExtracted { message: Option<Vec<u8>> },
    /// The commit invocation ended, with its captured error stream.
    CommitRan { ok: bool, stderr: Vec<u8> },
    /// The operation broke off before an outcome (a process could not be
    /// spawned, the transport failed); its own message is kept.
    Interrupted { note: Vec<u8> },
}

/// The mathematical shape of a `FlowEvent`.
pub enum FlowEventModel {
    BranchQueried { ok: bool, stdout: Seq<u8> },
    HistoryQueried { empty: bool },
    FilesQueried { ok: bool, stdout: Seq<u8> },
    KeyLooked { key: Option<Seq<u8>> },
    DiffQueried { ok: bool, stdout: Seq<u8> },
    MessageExtracted { message: Option<Seq<u8>> },
    CommitRan { ok: bool, stderr: Seq<u8> },
    Interrupted { note: Seq<u8> },
}

impl View for FlowEvent {
    type V = FlowEventModel;

    open spec fn view(&self) -> FlowEventModel {
        match self {
            FlowEvent::BranchQueried { ok, stdout } => FlowEventModel::BranchQueried {
                ok: *ok,
                stdout: stdout@,
            },
            FlowEvent::HistoryQueried { empty } => FlowEventModel::HistoryQueried {
                empty: *empty,
            },
            FlowEvent::FilesQueried { ok, stdout } => FlowEventModel::FilesQueried {
                ok: *ok,
                stdout: stdout@,
            },
            FlowEvent::KeyLooked { key } => FlowEventModel::KeyLooked { key: key.deep_view() },
            FlowEvent::DiffQueried { ok, stdout } => FlowEventModel::DiffQueried {
                ok: *ok,
                stdout: stdout@,
            },
            FlowEvent::MessageExtracted { message } => FlowEventModel::MessageExtracted {
                message: message.deep_view(),
            },
            FlowEvent::CommitRan { ok, stderr } => FlowEventModel::CommitRan {
                ok: *ok,
                stderr: stderr@,
            },
            FlowEvent::Interrupted { note } => FlowEventModel::Interrupted { note: note@ },
        }
    }
}

/// Whether the workflow has settled: committed, nothing to do, or failed.
pub open spec fn is_terminal(s: FlowStateModel) -> bool {
    match s {
        FlowStateModel::Committed { .. } => true,
        FlowStateModel::NothingToCommit => true,
        FlowStateModel::Failed { .. } => true,
        _ => false,
    }
}

/// The transition relation of the workflow: given where it stands and the
/// outcome of the operation it waited for, where it stands next. A terminal
/// state absorbs every event; an outcome that does not answer the pending
/// operation changes nothing.
pub open spec fn flow_step(s: FlowStateModel, e: FlowEventModel) -> FlowStateModel {
    if is_terminal(s) {
        s
    } else {
        match (s, e) {
            (_, FlowEventModel::Interrupted { note }) => FlowStateModel::Failed {
                error: FlowErrorModel::Interrupted { note },
            },
            (FlowStateModel::ResolveBranch, FlowEventModel::BranchQueried { ok, stdout }) => {
                let branch = trimmed(stdout);
                if ok && branch.len() > 0 {
                    FlowStateModel::ListFiles { branch }
                } else {
                    FlowStateModel::CheckHistory
                }
            },
            (FlowStateModel::CheckHistory, FlowEventModel::HistoryQueried { empty }) => {
                if empty {
                    FlowStateModel::ListFiles { branch: "main".spec_bytes() }
                } else {
                    FlowStateModel::Failed { error: FlowErrorModel::BranchUnresolved }
                }
            },
            (
                FlowStateModel::ListFiles { branch },
                FlowEventModel::FilesQueried { ok, stdout },
            ) => {
                if !ok {
                    FlowStateModel::Failed { error: FlowErrorModel::StagedListFailed }
                } else {
                    let files = lines_of(stdout);
                    if files.len() == 0 {
                        FlowStateModel::NothingToCommit
                    } else {
                        FlowStateModel::FetchKey { branch, files }
                    }
                }
            },
            (
                FlowStateModel::FetchKey { branch, files },
                FlowEventModel::KeyLooked { key },
            ) => {
                match key {
                    Option::Some(k) => FlowStateModel::FetchDiff { branch, files, key: k },
                    Option::None => FlowStateModel::Failed {
                        error: FlowErrorModel::KeyMissing,
                    },
                }
            },
            (
                FlowStateModel::FetchDiff { branch, files, key },
                FlowEventModel::DiffQueried { ok, stdout },
            ) => {
                if !ok {
                    FlowStateModel::Failed { error: FlowErrorModel::DiffFailed }
                } else {
                    FlowStateModel::RequestMessage {
                        key,
                        prompt: prompt_text(branch, files, diff_context(stdout)),
                    }
                }
            },
            (
                FlowStateModel::RequestMessage { key, prompt },
                FlowEventModel::MessageExtracted { message },
            ) => {
                match message {
                    Option::Some(m) => FlowStateModel::RunCommit { message: m },
                    Option::None => FlowStateModel::Failed {
                        error: FlowErrorModel::MessageMissing,
                    },
                }
            },
            (
                FlowStateModel::RunCommit { message },
                FlowEventModel::CommitRan { ok, stderr },
            ) => {
                if ok {
                    FlowStateModel::Committed { message }
                } else {
                    FlowStateModel::Failed { error: FlowErrorModel::CommitFailed { stderr } }
                }
            },
            (s2, _) => s2,
        }
    }
}

/// Whether the workflow has settled.
pub fn is_settled(s: &FlowState) -> (r: bool)
    ensures
        r == is_terminal(s@),
{
    match s {
        FlowState::Committed { .. } => true,
        FlowState::NothingToCommit => true,
        FlowState::Failed { .. } => true,
        _ => false,
    }
}

/// Moves the workflow one step: consumes the outcome of the pending
/// operation and yields the next state, exactly as `flow_step` says.
pub fn advance(s: FlowState, e: FlowEvent) -> (t: FlowState)
    ensures
        t@ == flow_step(s@, e@),
{
    if is_settled(&s) {
        return s;
    }
    match (s, e) {
        (_, FlowEvent::Interrupted { note }) => FlowState::Failed {
            error: FlowError::Interrupted { note },
        },
        (FlowState::ResolveBranch, FlowEvent::BranchQueried { ok, stdout }) => {
            let branch = trim_bytes(&stdout);
            if ok && branch.len() > 0 {
                FlowState::ListFiles { branch }
            } else {
                FlowState::CheckHistory
            }
        },
        (FlowState::CheckHistory, FlowEvent::HistoryQueried { empty }) => {
            if empty {
                FlowState::ListFiles { branch: str_to_bytes("main") }
            } else {
                FlowState::Failed { error: FlowError::BranchUnresolved }
            }
        },
        (FlowState::ListFiles { branch }, FlowEvent::FilesQueried { ok, stdout }) => {
            if !ok {
                FlowState::Failed { error: FlowError::StagedListFailed }
            } else {
                let files = split_lines(&stdout);
                if files.len() == 0 {
                    FlowState::NothingToCommit
                } else {
                    FlowState::FetchKey { branch, files }
                }
            }
        },
        (FlowState::FetchKey { branch, files }, FlowEvent::KeyLooked { key }) => {
            match key {
                Option::Some(k) => FlowState::FetchDiff { branch, files, key: k },
                Option::None => FlowState::Failed { error: FlowError::KeyMissing },
            }
        },
        (FlowState::FetchDiff { branch, files, key }, FlowEvent::DiffQueried { ok, stdout }) => {
            if !ok {
                FlowState::Failed { error: FlowError::DiffFailed }
            } else {
                let context = build_diff_context(&stdout);
                let prompt = build_prompt(&branch, &files, &context);
                FlowState::RequestMessage { key, prompt }
            }
        },
        (FlowState::RequestMessage { key, prompt }, FlowEvent::MessageExtracted { message }) => {
            match message {
                Option::Some(m) => FlowState::RunCommit { message: m },
                Option::None => FlowState::Failed { error: FlowError::MessageMissing },
            }
        },
        (FlowState::RunCommit { message }, FlowEvent::CommitRan { ok, stderr }) => {
            if ok {
                FlowState::Committed { message }
            } else {
                FlowState::Failed { error: FlowError::CommitFailed { stderr } }
            }
        },
        (s2, _) => s2,
    }
}

/// A settled workflow stays settled: once it has committed, found nothing to
/// do, or failed, no event moves it, so no further operation is requested.
pub proof fn settled_state_stays(s: FlowStateModel, e: FlowEventModel)
    requires
        is_terminal(s),
    ensures
        flow_step(s, e) == s,
{
}

/// A clean staged-file listing with no entries ends the workflow
/// successfully at once: the next state is the terminal `NothingToCommit`,
/// so the state that sends the network request (`RequestMessage`) and the
/// state that runs the commit (`RunCommit`) are never reached.
pub proof fn empty_staged_list_ends_quietly(branch: Seq<u8>, stdout: Seq<u8>, e: FlowEventModel)
    requires
        lines_of(stdout).len() == 0,
    ensures
        flow_step(
            FlowStateModel::ListFiles { branch },
            FlowEventModel::FilesQueried { ok: true, stdout },
        ) == FlowStateModel::NothingToCommit,
        flow_step(FlowStateModel::NothingToCommit, e) == FlowStateModel::NothingToCommit,
{
}

/// The extracted message is committed verbatim: the commit request carries
/// exactly the message the response yielded, and success reports the same
/// message unchanged.
pub proof fn message_is_committed_verbatim(
    key: Seq<u8>,
    prompt: Seq<u8>,
    m: Seq<u8>,
    stderr: Seq<u8>,
)
    ensures
        flow_step(
            FlowStateModel::RequestMessage { key, prompt },
            FlowEventModel::MessageExtracted { message: Option::Some(m) },
        ) == (FlowStateModel::RunCommit { message: m }),
        flow_step(
            FlowStateModel::RunCommit { message: m },
            FlowEventModel::CommitRan { ok: true, stderr },
        ) == (FlowStateModel::Committed { message: m }),
{
}

/// Branch fallback: when the branch query fails or comes back blank, a
/// repository confirmed to have no commits resolves to the literal sentinel
/// `main`, and one that has commits fails with the branch-determination
/// error.
pub proof fn empty_repository_falls_back_to_main(ok: bool, stdout: Seq<u8>)
    requires
        !ok || trimmed(stdout).len() == 0,
    ensures
        flow_step(
            FlowStateModel::ResolveBranch,
            FlowEventModel::BranchQueried { ok, stdout },
        ) == FlowStateModel::CheckHistory,
        flow_step(
            FlowStateModel::CheckHistory,
            FlowEventModel::HistoryQueried { empty: true },
        ) == (FlowStateModel::ListFiles { branch: "main".spec_bytes() }),
        flow_step(
            FlowStateModel::CheckHistory,
            FlowEventModel::HistoryQueried { empty: false },
        ) == (FlowStateModel::Failed { error: FlowErrorModel::BranchUnresolved }),
{
}

} // verus!

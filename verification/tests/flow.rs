use quickcommit::errors::{error_text, FlowError};
use quickcommit::response::extract_commit_message;
use quickcommit::workflow::{advance, is_settled, FlowEvent, FlowState};

fn b(s: &str) -> Vec<u8> {
    s.as_bytes().to_vec()
}

#[test]
fn empty_staged_list_ends_quietly_without_network_or_commit() {
    let s = FlowState::ResolveBranch;
    let s = advance(s, FlowEvent::BranchQueried { ok: true, stdout: b("main\n") });
    match &s {
        FlowState::ListFiles { branch } => assert_eq!(branch, &b("main")),
        _ => panic!("expected the staged-file listing to be next"),
    }
    let s = advance(s, FlowEvent::FilesQueried { ok: true, stdout: b("") });
    assert!(matches!(s, FlowState::NothingToCommit));
    assert!(is_settled(&s));
    // A settled workflow absorbs anything further: nothing else is requested.
    let s = advance(s, FlowEvent::CommitRan { ok: true, stderr: b("") });
    assert!(matches!(s, FlowState::NothingToCommit));
}

#[test]
fn one_staged_file_commits_the_returned_message() {
    let s = FlowState::ResolveBranch;
    let s = advance(s, FlowEvent::BranchQueried { ok: true, stdout: b("main\n") });
    let s = advance(s, FlowEvent::FilesQueried { ok: true, stdout: b("a.txt\n") });
    match &s {
        FlowState::FetchKey { files, .. } => assert_eq!(files, &vec![b("a.txt")]),
        _ => panic!("expected the key lookup to be next"),
    }
    let s = advance(s, FlowEvent::KeyLooked { key: Some(b("sk-1")) });
    let s = advance(s, FlowEvent::DiffQueried { ok: true, stdout: b("+a\n") });
    match &s {
        FlowState::RequestMessage { key, prompt } => {
            assert_eq!(key, &b("sk-1"));
            let text = String::from_utf8(prompt.clone()).unwrap();
            assert!(text.contains("Branch name: main"));
            assert!(text.contains("Staged files: a.txt"));
            assert!(text.contains("Git diff for staged changes:\n+a\n"));
        },
        _ => panic!("expected the remote request to be next"),
    }
    // The mocked remote service answers with this content.
    let body = b("{\"choices\":[{\"message\":{\"content\":\"feat: add a.txt\"}}]}");
    let message = extract_commit_message(&body);
    let s = advance(s, FlowEvent::MessageExtracted { message });
    match &s {
        FlowState::RunCommit { message } => assert_eq!(message, &b("feat: add a.txt")),
        _ => panic!("expected the commit invocation to be next"),
    }
    let s = advance(s, FlowEvent::CommitRan { ok: true, stderr: b("") });
    match &s {
        FlowState::Committed { message } => assert_eq!(message, &b("feat: add a.txt")),
        _ => panic!("expected the workflow to finish committed"),
    }
}

#[test]
fn branch_fallback_on_empty_repository() {
    let s = advance(
        FlowState::ResolveBranch,
        FlowEvent::BranchQueried { ok: false, stdout: b("") },
    );
    assert!(matches!(s, FlowState::CheckHistory));
    let s = advance(s, FlowEvent::HistoryQueried { empty: true });
    match &s {
        FlowState::ListFiles { branch } => assert_eq!(branch, &b("main")),
        _ => panic!("an empty repository must fall back to main"),
    }
}

#[test]
fn branch_failure_with_history_is_an_error() {
    // Blank output counts as a failed branch query too.
    let s = advance(
        FlowState::ResolveBranch,
        FlowEvent::BranchQueried { ok: true, stdout: b("\n") },
    );
    assert!(matches!(s, FlowState::CheckHistory));
    let s = advance(s, FlowEvent::HistoryQueried { empty: false });
    match &s {
        FlowState::Failed { error } => {
            assert!(matches!(error, FlowError::BranchUnresolved));
            assert_eq!(error_text(error), b("Failed to get current branch"));
        },
        _ => panic!("a repository with history and no branch must fail"),
    }
}

#[test]
fn each_failed_operation_fails_the_workflow() {
    let s = advance(
        FlowState::ListFiles { branch: b("main") },
        FlowEvent::FilesQueried { ok: false, stdout: b("") },
    );
    assert!(matches!(s, FlowState::Failed { error: FlowError::StagedListFailed }));

    let s = advance(
        FlowState::FetchKey { branch: b("main"), files: vec![b("a.txt")] },
        FlowEvent::KeyLooked { key: None },
    );
    assert!(matches!(s, FlowState::Failed { error: FlowError::KeyMissing }));

    let s = advance(
        FlowState::FetchDiff { branch: b("main"), files: vec![b("a.txt")], key: b("sk-1") },
        FlowEvent::DiffQueried { ok: false, stdout: b("") },
    );
    assert!(matches!(s, FlowState::Failed { error: FlowError::DiffFailed }));

    let s = advance(
        FlowState::RequestMessage { key: b("sk-1"), prompt: b("p") },
        FlowEvent::MessageExtracted { message: None },
    );
    assert!(matches!(s, FlowState::Failed { error: FlowError::MessageMissing }));

    let s = advance(
        FlowState::RunCommit { message: b("feat: x") },
        FlowEvent::CommitRan { ok: false, stderr: b("hook said no") },
    );
    match &s {
        FlowState::Failed { error } => {
            assert_eq!(error_text(error), b("Failed to commit changes: hook said no"));
        },
        _ => panic!("a failed commit must fail the workflow"),
    }

    let s = advance(
        FlowState::ResolveBranch,
        FlowEvent::Interrupted { note: b("spawn failed") },
    );
    match &s {
        FlowState::Failed { error } => assert_eq!(error_text(error), b("spawn failed")),
        _ => panic!("an interruption must fail the workflow"),
    }
}

use quickcommit::config::{
    account_name, api_endpoint, bearer_header_value, model_name, service_name, MAX_OUTPUT_TOKENS,
};
use quickcommit::credential::{interpret_key_lookup, prepare_api_key};
use quickcommit::diff::{build_diff_context, DIFF_LIMIT};
use quickcommit::dispatch::{invalid_command_text, parse_command, usage_text, Command};
use quickcommit::errors::{error_text, FlowError};
use quickcommit::prompt::{build_prompt, BASE_PROMPT};
use quickcommit::request::build_request_body;
use quickcommit::response::extract_commit_message;
use quickcommit::text::{bytes_eq, join_with, split_lines, trim_bytes};

fn b(s: &str) -> Vec<u8> {
    s.as_bytes().to_vec()
}

#[test]
fn trim_strips_surrounding_whitespace() {
    assert_eq!(trim_bytes(&b("  hi there \n")), b("hi there"));
    assert_eq!(trim_bytes(&b("\t\r\n ")), b(""));
    assert_eq!(trim_bytes(&b("clean")), b("clean"));
    assert_eq!(trim_bytes(&b("")), b(""));
}

#[test]
fn split_lines_matches_str_lines() {
    let cases = ["", "\n", "a.txt\nb.txt\n", "a.txt\nb.txt", "one\r\ntwo\r\n", "mid\n\nend"];
    for case in cases {
        let got: Vec<String> = split_lines(&b(case))
            .into_iter()
            .map(|l| String::from_utf8(l).unwrap())
            .collect();
        let want: Vec<String> = case.lines().map(|s| s.to_string()).collect();
        assert_eq!(got, want, "case {:?}", case);
    }
}

#[test]
fn join_inserts_separator_between_entries() {
    let sep = b(", ");
    assert_eq!(join_with(&vec![], &sep), b(""));
    assert_eq!(join_with(&vec![b("a.txt")], &sep), b("a.txt"));
    assert_eq!(join_with(&vec![b("a"), b("b"), b("c")], &sep), b("a, b, c"));
}

#[test]
fn bytes_eq_compares_content() {
    assert!(bytes_eq(&b("same"), &b("same")));
    assert!(!bytes_eq(&b("same"), &b("other")));
    assert!(!bytes_eq(&b("same"), &b("sam")));
}

#[test]
fn short_diff_context_is_header_plus_diff() {
    let diff = b("diff --git a/a.txt b/a.txt\n+hello\n");
    let mut want = b("Git diff for staged changes:\n");
    want.extend_from_slice(&diff);
    assert_eq!(build_diff_context(&diff), want);
}

#[test]
fn diff_at_limit_is_kept_unmarked() {
    let diff = vec![b'x'; DIFF_LIMIT];
    let mut want = b("Git diff for staged changes:\n");
    want.extend_from_slice(&diff);
    assert_eq!(build_diff_context(&diff), want);
}

#[test]
fn long_diff_is_truncated_with_marker() {
    let diff = vec![b'y'; DIFF_LIMIT + 123];
    let got = build_diff_context(&diff);
    let mut want = b("Git diff for staged changes:\n");
    want.extend_from_slice(&diff[..DIFF_LIMIT]);
    want.extend_from_slice("... (truncated)".as_bytes());
    assert_eq!(got, want);
    assert_eq!(
        got.len(),
        "Git diff for staged changes:\n".len() + DIFF_LIMIT + "... (truncated)".len()
    );
}

#[test]
fn prompt_lists_branch_files_and_context() {
    let branch = b("main");
    let files = vec![b("a.txt"), b("b.txt")];
    let context = build_diff_context(&b("+x\n"));
    let got = build_prompt(&branch, &files, &context);
    let want = format!(
        "{}:\nBranch name: {}\nStaged files: {}\nGit diff:\n{}",
        BASE_PROMPT, "main", "a.txt, b.txt", "Git diff for staged changes:\n+x\n"
    );
    assert_eq!(String::from_utf8(got).unwrap(), want);
}

#[test]
fn dispatch_routes_each_token() {
    assert!(matches!(parse_command(None), Command::AutoCommit));
    assert!(matches!(parse_command(Some(&b("commit"))), Command::AutoCommit));
    assert!(matches!(parse_command(Some(&b("help"))), Command::Help));
    assert!(matches!(parse_command(Some(&b("set-api-key"))), Command::SetApiKey));
}

#[test]
fn bogus_token_is_invalid_and_reported() {
    assert!(matches!(parse_command(Some(&b("bogus"))), Command::Invalid));
    assert_eq!(invalid_command_text(&b("bogus")), b("Error: Invalid command 'bogus'"));
    let usage = String::from_utf8(usage_text()).unwrap();
    assert!(usage.contains("Usage:"));
    assert!(usage.contains("set-api-key"));
}

#[test]
fn api_key_round_trip_through_mock_store() {
    let mut store: Option<Vec<u8>> = None;
    assert!(interpret_key_lookup(store.clone()).is_err());
    store = Some(prepare_api_key(&b("sk-test-123\n")));
    let got = interpret_key_lookup(store.clone());
    assert_eq!(got.ok().unwrap(), b("sk-test-123"));
}

#[test]
fn missing_key_is_the_distinguished_error() {
    let err = match interpret_key_lookup(None) {
        Err(e) => e,
        Ok(_) => panic!("a missing key must be an error"),
    };
    assert!(matches!(err, FlowError::KeyMissing));
    assert_eq!(
        error_text(&err),
        b("API key not found. Please set it using 'quickcommit set-api-key'")
    );
}

#[test]
fn error_texts_are_exact() {
    assert_eq!(error_text(&FlowError::BranchUnresolved), b("Failed to get current branch"));
    assert_eq!(error_text(&FlowError::StagedListFailed), b("Failed to get staged files"));
    assert_eq!(
        error_text(&FlowError::DiffFailed),
        b("Failed to get git diff for staged changes")
    );
    assert_eq!(
        error_text(&FlowError::MessageMissing),
        b("Failed to extract commit message from API response")
    );
    assert_eq!(
        error_text(&FlowError::CommitFailed { stderr: b("hook said no") }),
        b("Failed to commit changes: hook said no")
    );
    assert_eq!(error_text(&FlowError::Interrupted { note: b("broken pipe") }), b("broken pipe"));
}

#[test]
fn response_content_is_extracted_and_trimmed() {
    let body = b("{\"choices\":[{\"message\":{\"content\":\"  feat: add a.txt\\n\"}}]}");
    assert_eq!(extract_commit_message(&body).unwrap(), b("feat: add a.txt"));
}

#[test]
fn extraction_fails_without_a_text_field() {
    assert!(extract_commit_message(&b("{}")).is_none());
    assert!(extract_commit_message(&b("not json")).is_none());
    assert!(extract_commit_message(&b("{\"choices\":[]}")).is_none());
    assert!(
        extract_commit_message(&b("{\"choices\":[{\"message\":{\"content\":42}}]}")).is_none()
    );
}

#[test]
fn request_body_matches_hand_serialization() {
    let body = build_request_body(&b("say \"hi\"\nplease"));
    assert_eq!(
        String::from_utf8(body).unwrap(),
        "{\"max_tokens\":100,\"messages\":[{\"content\":\"say \\\"hi\\\"\\nplease\",\"role\":\"user\"}],\"model\":\"gpt-4o\"}"
    );
}

#[test]
fn control_bytes_are_escaped_in_hex() {
    let body = build_request_body(&vec![1u8]);
    assert_eq!(
        String::from_utf8(body).unwrap(),
        "{\"max_tokens\":100,\"messages\":[{\"content\":\"\\u0001\",\"role\":\"user\"}],\"model\":\"gpt-4o\"}"
    );
}

#[test]
fn request_body_is_json_the_parser_reads_back() {
    let prompt = "line1\nline2 \"quoted\" \\ tab\t end \u{1f}";
    let body = build_request_body(&b(prompt));
    let v: serde_json::Value = serde_json::from_slice(&body).unwrap();
    assert_eq!(v["model"], "gpt-4o");
    assert_eq!(v["max_tokens"], 100);
    assert_eq!(v["messages"][0]["role"], "user");
    assert_eq!(v["messages"][0]["content"], prompt);
}

#[test]
fn fixed_configuration_values() {
    assert_eq!(service_name(), "quickcommit");
    assert_eq!(account_name(), "api-key");
    assert_eq!(model_name(), "gpt-4o");
    assert_eq!(api_endpoint(), "https://api.openai.com/v1/chat/completions");
    assert_eq!(MAX_OUTPUT_TOKENS, 100);
    assert_eq!(bearer_header_value(&b("sk-1")), b("Bearer sk-1"));
}

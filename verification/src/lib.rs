//! Verified core of a command-line helper that turns the staged changes of a
//! repository into a commit: it inspects repository state, builds a prompt for
//! a remote text-completion service, and applies the returned message as the
//! commit message. The modules here hold the decision logic — text handling,
//! diff truncation, prompt assembly, credential preparation, response
//! extraction, command dispatch and the workflow state machine — all stated in
//! contracts; the surrounding process, subprocess and network plumbing lives
//! outside the verified library.

pub mod config;
pub mod credential;
pub mod diff;
pub mod dispatch;
pub mod errors;
pub mod prompt;
pub mod request;
pub mod response;
pub mod text;
pub mod workflow;

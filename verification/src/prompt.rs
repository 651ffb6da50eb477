//! Prompt assembly: the fixed instruction block followed by the branch name,
//! the comma-joined staged-file list, and the diff context text.

use crate::text::{append_vec, join_with, joined, str_to_bytes};
use vstd::prelude::*;
use vstd::string::StringSliceAdditionalSpecFns;

verus! {

/// The fixed instruction block that opens every prompt.
pub const BASE_PROMPT: &'static str = "
    Take a deep breath and work on this problem step-by-step.
    Summarize the provided diff into a clear and concise written commit message.
    Use the imperative style for the subject, use the imperative style for the body, and limit the entire subject line to 50 characters or less.
    It should be ready to be pasted into a commit without further editing.
    Do not add the ``` to the start and end of the commit message.
    It is important that you start the subject with a commit type based on the changes made.
    The title in the subject after the commit type should start with a capital letter.

    The following are the commit types that you can use:
        feat     (new feature)
        fix      (bug fix)
        refactor (refactoring production code)
        style    (formatting, missing semi colons, etc; no code change)
        docs     (changes to documentation)
        test     (adding or refactoring tests; no production code change)
        perf     (code change that improves performance)
        revert   (revert a commit)
        build    (changes that affect the build system)
        ci       (changes to the CI configuration files or scripts)
        chore    (updating grunt tasks etc; no production code change)

    It is crucial that you follow the rules above.

    Use the following information to generate the commit message:
";

/// The instruction block as bytes.
pub open spec fn base_prompt_text() -> Seq<u8> {
    BASE_PROMPT.spec_bytes()
}

/// The full prompt: instruction block, branch name, comma-joined staged-file
/// list, and the diff context text, under fixed captions.
pub open spec fn prompt_text(branch: Seq<u8>, files: Seq<Seq<u8>>, context: Seq<u8>) -> Seq<u8> {
    base_prompt_text() + ":\nBranch name: ".spec_bytes() + branch + "\nStaged files: ".spec_bytes()
        + joined(files, ", ".spec_bytes()) + "\nGit diff:\n".spec_bytes() + context
}

/// Assembles the prompt for one auto-commit invocation.
pub fn build_prompt(branch: &Vec<u8>, files: &Vec<Vec<u8>>, context: &Vec<u8>) -> (r: Vec<u8>)
    ensures
        r@ == prompt_text(branch@, files.deep_view(), context@),
{
    let mut r = str_to_bytes(BASE_PROMPT);
    let caption = str_to_bytes(":\nBranch name: ");
    append_vec(&mut r, &caption);
    append_vec(&mut r, branch);
    let caption = str_to_bytes("\nStaged files: ");
    append_vec(&mut r, &caption);
    let sep = str_to_bytes(", ");
    let joined_files = join_with(files, &sep);
    append_vec(&mut r, &joined_files);
    let caption = str_to_bytes("\nGit diff:\n");
    append_vec(&mut r, &caption);
    append_vec(&mut r, context);
    proof {
        assert(r@ =~= prompt_text(branch@, files.deep_view(), context@));
    }
    r
}

} // verus!

//! The prompt texts the command handlers send to the remote endpoint,
//! each pinned exactly.  The handlers themselves read files and stream
//! answers — I/O that lives with the caller — and fetch their words
//! here.

use vstd::prelude::*;

verus! {

/// The generate command's prompt.
pub fn generate_prompt(description: &str) -> (r: String)
    ensures
        r@ == "Generate code for the following description. Reply with the code only:\n\n"@
            + description@,
{
    let mut s = String::from_str(
        "Generate code for the following description. Reply with the code only:\n\n",
    );
    s.append(description);
    s
}

/// The explain command's prompt around the selected code.
pub fn explain_prompt(code_context: &str) -> (r: String)
    ensures
        r@ == "Explain the following code. Identify the programming language if possible:\n\n```\n"@
            + code_context@ + "\n```"@,
{
    let mut s = String::from_str(
        "Explain the following code. Identify the programming language if possible:\n\n```\n",
    );
    s.append(code_context);
    s.append("\n```");
    s
}

/// The edit command's prompt around the instruction and the file.
pub fn edit_prompt(instruction: &str, content: &str) -> (r: String)
    ensures
        r@
            == "Apply the following instruction to the file below and reply with the full edited file:\n\n"@
            + instruction@ + "\n\n```\n"@ + content@ + "\n```"@,
{
    let mut s = String::from_str(
        "Apply the following instruction to the file below and reply with the full edited file:\n\n",
    );
    s.append(instruction);
    s.append("\n\n```\n");
    s.append(content);
    s.append("\n```");
    s
}

/// The shell-explain subcommand's prompt.
pub fn shell_explain_prompt(command_string: &str) -> (r: String)
    ensures
        r@ == "Explain this shell command:\n\n"@ + command_string@,
{
    let mut s = String::from_str("Explain this shell command:\n\n");
    s.append(command_string);
    s
}

/// The shell-suggest subcommand's prompt.
pub fn shell_suggest_prompt(description: &str) -> (r: String)
    ensures
        r@ == "Suggest a shell command that does the following:\n\n"@ + description@,
{
    let mut s = String::from_str("Suggest a shell command that does the following:\n\n");
    s.append(description);
    s
}

/// The shared shape of the file-centred prompts (debug, test, doc): an
/// instruction, optional detail, and the file's content fenced below.
pub fn file_prompt(instruction: &str, detail: &str, file_content: Option<&str>) -> (r: String)
    ensures
        r@ == instruction@ + (if detail@.len() > 0 {
            ":\n\n"@ + detail@
        } else {
            Seq::<char>::empty()
        }) + (if file_content is Some {
            "\n\n```\n"@ + file_content->0@ + "\n```"@
        } else {
            Seq::<char>::empty()
        }),
{
    let mut s = String::from_str(instruction);
    if !detail.is_empty() {
        s.append(":\n\n");
        s.append(detail);
    }
    if let Some(content) = file_content {
        s.append("\n\n```\n");
        s.append(content);
        s.append("\n```");
    }
    proof {
        assert(Seq::<char>::empty() + Seq::<char>::empty() =~= Seq::<char>::empty());
    }
    s
}

} // verus!

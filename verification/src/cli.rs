//! The command-line vocabulary: which subcommand was invoked and with
//! which arguments, as plain values.  Parsing the actual command line
//! happens outside the crate; the dispatch logic receives these.

use vstd::prelude::*;

verus! {

/// A parsed invocation.
#[derive(Debug)]
pub struct Cli {
    pub command: Option<Commands>,
}

/// The subcommands.
#[derive(Debug)]
pub enum Commands {
    Configure(ConfigureArgs),
    Ask { prompt: String },
    Generate(GenerateArgs),
    Explain(ExplainArgs),
    Edit(EditArgs),
    Debug(DebugArgs),
    Test(TestArgs),
    Doc(DocArgs),
    Run(RunArgs),
    Shell(ShellArgs),
}

#[derive(Debug)]
pub struct ConfigureArgs {
    pub set_api_key: Option<Option<String>>,
    pub set_default_model: Option<String>,
    pub set_edit_model: Option<String>,
}

#[derive(Debug)]
pub struct GenerateArgs {
    pub description: String,
    pub file: Option<String>,
}

#[derive(Debug)]
pub struct ExplainArgs {
    pub file: String,
    pub lines: Option<String>,
    pub symbol: Option<String>,
}

#[derive(Debug)]
pub struct EditArgs {
    pub instruction: String,
    pub file: String,
}

#[derive(Debug)]
pub struct DebugArgs {
    pub error: String,
    pub file: Option<String>,
}

#[derive(Debug)]
pub struct TestArgs {
    pub file: String,
}

#[derive(Debug)]
pub struct DocArgs {
    pub file: String,
}

#[derive(Debug)]
pub struct RunArgs {
    pub task_description: String,
}

#[derive(Debug)]
pub struct ShellArgs {
    pub command: ShellCommands,
}

#[derive(Debug)]
pub enum ShellCommands {
    Explain(ShellExplainArgs),
    Suggest(ShellSuggestArgs),
}

#[derive(Debug)]
pub struct ShellExplainArgs {
    pub command_string: String,
}

#[derive(Debug)]
pub struct ShellSuggestArgs {
    pub description: String,
}

} // verus!

//! The subprocess-execution tool's definition and value types.  The
//! spawn itself happens in the host.

use vstd::prelude::*;

verus! {

use crate::registry::ToolSpec;

/// Arguments of a command execution.
#[derive(Debug)]
pub struct ExecuteCommandInput {
    pub command: String,
    pub working_directory: Option<String>,
}

/// The captured outcome of a command execution.
#[derive(Debug)]
pub struct ExecuteCommandOutput {
    pub exit_code: Option<i32>,
    pub stdout: String,
    pub stderr: String,
}

/// Executes a shell command and captures its output.
#[derive(Debug)]
pub struct ExecuteCommandTool;

impl ExecuteCommandTool {
    /// The registry entry this tool defines: its exact name,
    /// description and parameter schema.
    pub open spec fn describes(t: ToolSpec) -> bool {
        &&& t.name@ == "execute_command"@
        &&& t.description@ == "Executes a shell command and captures its output. Args: {\"command\": string, \"working_directory\": string (optional)}"@
        &&& t.parameters@ == "{\"type\":\"object\",\"properties\":{\"command\":{\"type\":\"string\",\"description\":\"The command line to execute.\"},\"working_directory\":{\"type\":\"string\",\"description\":\"The directory to execute the command in. Defaults to the current workspace directory.\"}},\"required\":[\"command\"]}"@
    }

    pub fn name(&self) -> (r: String)
        ensures
            r@ == "execute_command"@,
    {
        String::from_str("execute_command")
    }

    pub fn description(&self) -> (r: String)
        ensures
            r@
                == "Executes a shell command and captures its output. Args: {\"command\": string, \"working_directory\": string (optional)}"@,
    {
        String::from_str(
            "Executes a shell command and captures its output. Args: {\"command\": string, \"working_directory\": string (optional)}",
        )
    }

    pub fn parameters_schema(&self) -> (r: Result<String, String>)
        ensures
            r matches Ok(s) ==> s@
                == "{\"type\":\"object\",\"properties\":{\"command\":{\"type\":\"string\",\"description\":\"The command line to execute.\"},\"working_directory\":{\"type\":\"string\",\"description\":\"The directory to execute the command in. Defaults to the current workspace directory.\"}},\"required\":[\"command\"]}"@,
            r is Ok,
    {
        Ok(
            String::from_str(
                "{\"type\":\"object\",\"properties\":{\"command\":{\"type\":\"string\",\"description\":\"The command line to execute.\"},\"working_directory\":{\"type\":\"string\",\"description\":\"The directory to execute the command in. Defaults to the current workspace directory.\"}},\"required\":[\"command\"]}",
            ),
        )
    }
}

} // verus!

//! The tool vocabulary: the error taxonomy tools surface, the built-in
//! tool definitions (name, description and JSON-Schema parameters, the
//! latter as JSON text), user-declared tools, and the capability
//! boundary through which tools are executed.
//!
//! Executing a tool is I/O (file access, subprocesses, outbound HTTP)
//! and happens outside the crate, behind the [`ToolHost`] trait; the
//! definitions and all validation logic live here.

use vstd::prelude::*;

verus! {

use crate::config::UserToolConfig;
use crate::json::{json_wf, parse_json, compile_schema_check, schema_compiles};
use crate::registry::ToolSpec;

/// The errors a tool invocation can surface.
#[derive(Debug)]
pub enum ToolError {
    InvalidArguments { tool_name: String, details: String },
    ExecutionFailed { command: String, stderr: String },
    FileNotFound { path: String },
    PermissionDenied { resource: String },
    NetworkError { message: String },
    Other { message: String },
}

/// The one-line rendering of a tool error.
pub open spec fn tool_error_text(e: ToolError) -> Seq<char> {
    match e {
        ToolError::InvalidArguments { tool_name, details } => "Invalid arguments for tool '"@
            + tool_name@ + "': "@ + details@,
        ToolError::ExecutionFailed { command, stderr } => "Execution failed for command '"@
            + command@ + "': "@ + stderr@,
        ToolError::FileNotFound { path } => "File not found at path: "@ + path@,
        ToolError::PermissionDenied { resource } => "Permission denied for resource: "@
            + resource@,
        ToolError::NetworkError { message } => "Network error: "@ + message@,
        ToolError::Other { message } => "An unexpected error occurred: "@ + message@,
    }
}

impl ToolError {
    /// Renders the error as one human-readable line.
    pub fn message(&self) -> (r: String)
        ensures
            r@ == tool_error_text(*self),
    {
        match self {
            ToolError::InvalidArguments { tool_name, details } => {
                let mut s = String::from_str("Invalid arguments for tool '");
                s.append(tool_name.as_str());
                s.append("': ");
                s.append(details.as_str());
                s
            },
            ToolError::ExecutionFailed { command, stderr } => {
                let mut s = String::from_str("Execution failed for command '");
                s.append(command.as_str());
                s.append("': ");
                s.append(stderr.as_str());
                s
            },
            ToolError::FileNotFound { path } => {
                let mut s = String::from_str("File not found at path: ");
                s.append(path.as_str());
                s
            },
            ToolError::PermissionDenied { resource } => {
                let mut s = String::from_str("Permission denied for resource: ");
                s.append(resource.as_str());
                s
            },
            ToolError::NetworkError { message } => {
                let mut s = String::from_str("Network error: ");
                s.append(message.as_str());
                s
            },
            ToolError::Other { message } => {
                let mut s = String::from_str("An unexpected error occurred: ");
                s.append(message.as_str());
                s
            },
        }
    }
}

/// The capability boundary of a tool host: executes the named tool on
/// JSON-text arguments and returns the tool's JSON-text result, and
/// asks the user whether a gated call may run.  The implementations
/// live with the caller (they perform I/O); the logic here states
/// what holds of every outcome.
pub trait ToolHost {
    fn execute_tool(&mut self, name: &str, arguments: &str) -> Result<String, ToolError>;

    fn confirm_execution(&mut self, name: &str, arguments: &str) -> bool;
}

/// Reads a file from the file system.
#[derive(Debug)]
pub struct FileReadTool;

impl FileReadTool {
    /// The registry entry this tool defines: its exact name,
    /// description and parameter schema.
    pub open spec fn describes(t: ToolSpec) -> bool {
        &&& t.name@ == "FileReadTool"@
        &&& t.description@ == "Reads a file from the file system. Args: {\"path\": string}"@
        &&& t.parameters@ == "{\"type\":\"object\",\"properties\":{\"path\":{\"type\":\"string\"}},\"required\":[\"path\"]}"@
    }

    pub fn name(&self) -> (r: String)
        ensures
            r@ == "FileReadTool"@,
    {
        String::from_str("FileReadTool")
    }

    pub fn description(&self) -> (r: String)
        ensures
            r@ == "Reads a file from the file system. Args: {\"path\": string}"@,
    {
        String::from_str("Reads a file from the file system. Args: {\"path\": string}")
    }

    pub fn parameters_schema(&self) -> (r: Result<String, String>)
        ensures
            r matches Ok(s) ==> s@
                == "{\"type\":\"object\",\"properties\":{\"path\":{\"type\":\"string\"}},\"required\":[\"path\"]}"@,
            r is Ok,
    {
        Ok(
            String::from_str(
                "{\"type\":\"object\",\"properties\":{\"path\":{\"type\":\"string\"}},\"required\":[\"path\"]}",
            ),
        )
    }
}

/// Writes content to a file.
#[derive(Debug)]
pub struct FileWriteTool;

impl FileWriteTool {
    /// The registry entry this tool defines: its exact name,
    /// description and parameter schema.
    pub open spec fn describes(t: ToolSpec) -> bool {
        &&& t.name@ == "FileWriteTool"@
        &&& t.description@ == "Writes content to a file. Args: {\"path\": string, \"content\": string}"@
        &&& t.parameters@ == "{\"type\":\"object\",\"properties\":{\"path\":{\"type\":\"string\"},\"content\":{\"type\":\"string\"}},\"required\":[\"path\",\"content\"]}"@
    }

    pub fn name(&self) -> (r: String)
        ensures
            r@ == "FileWriteTool"@,
    {
        String::from_str("FileWriteTool")
    }

    pub fn description(&self) -> (r: String)
        ensures
            r@ == "Writes content to a file. Args: {\"path\": string, \"content\": string}"@,
    {
        String::from_str("Writes content to a file. Args: {\"path\": string, \"content\": string}")
    }

    pub fn parameters_schema(&self) -> (r: Result<String, String>)
        ensures
            r matches Ok(s) ==> s@
                == "{\"type\":\"object\",\"properties\":{\"path\":{\"type\":\"string\"},\"content\":{\"type\":\"string\"}},\"required\":[\"path\",\"content\"]}"@,
            r is Ok,
    {
        Ok(
            String::from_str(
                "{\"type\":\"object\",\"properties\":{\"path\":{\"type\":\"string\"},\"content\":{\"type\":\"string\"}},\"required\":[\"path\",\"content\"]}",
            ),
        )
    }
}

/// Executes a shell command with an argument list.
#[derive(Debug)]
pub struct ShellCommandTool;

impl ShellCommandTool {
    /// The registry entry this tool defines: its exact name,
    /// description and parameter schema.
    pub open spec fn describes(t: ToolSpec) -> bool {
        &&& t.name@ == "ShellCommandTool"@
        &&& t.description@ == "Executes a shell command. Args: {\"command\": string, \"args\": [string] (optional)}"@
        &&& t.parameters@ == "{\"type\":\"object\",\"properties\":{\"command\":{\"type\":\"string\"},\"args\":{\"type\":\"array\",\"items\":{\"type\":\"string\"},\"default\":[]}},\"required\":[\"command\"]}"@
    }

    pub fn name(&self) -> (r: String)
        ensures
            r@ == "ShellCommandTool"@,
    {
        String::from_str("ShellCommandTool")
    }

    pub fn description(&self) -> (r: String)
        ensures
            r@
                == "Executes a shell command. Args: {\"command\": string, \"args\": [string] (optional)}"@,
    {
        String::from_str(
            "Executes a shell command. Args: {\"command\": string, \"args\": [string] (optional)}",
        )
    }

    pub fn parameters_schema(&self) -> (r: Result<String, String>)
        ensures
            r matches Ok(s) ==> s@
                == "{\"type\":\"object\",\"properties\":{\"command\":{\"type\":\"string\"},\"args\":{\"type\":\"array\",\"items\":{\"type\":\"string\"},\"default\":[]}},\"required\":[\"command\"]}"@,
            r is Ok,
    {
        Ok(
            String::from_str(
                "{\"type\":\"object\",\"properties\":{\"command\":{\"type\":\"string\"},\"args\":{\"type\":\"array\",\"items\":{\"type\":\"string\"},\"default\":[]}},\"required\":[\"command\"]}",
            ),
        )
    }
}

/// Runs a limited set of git operations.
#[derive(Debug)]
pub struct GitTool;

impl GitTool {
    /// The registry entry this tool defines: its exact name,
    /// description and parameter schema.
    pub open spec fn describes(t: ToolSpec) -> bool {
        &&& t.name@ == "GitTool"@
        &&& t.description@ == "Runs git operations. Args: {\"operation\": string, \"args\": object (optional)}"@
        &&& t.parameters@ == "{\"type\":\"object\",\"properties\":{\"operation\":{\"type\":\"string\",\"enum\":[\"status\",\"commit\",\"add\",\"push\"]},\"args\":{\"type\":\"object\"}},\"required\":[\"operation\"]}"@
    }

    pub fn name(&self) -> (r: String)
        ensures
            r@ == "GitTool"@,
    {
        String::from_str("GitTool")
    }

    pub fn description(&self) -> (r: String)
        ensures
            r@
                == "Runs git operations. Args: {\"operation\": string, \"args\": object (optional)}"@,
    {
        String::from_str(
            "Runs git operations. Args: {\"operation\": string, \"args\": object (optional)}",
        )
    }

    pub fn parameters_schema(&self) -> (r: Result<String, String>)
        ensures
            r matches Ok(s) ==> s@
                == "{\"type\":\"object\",\"properties\":{\"operation\":{\"type\":\"string\",\"enum\":[\"status\",\"commit\",\"add\",\"push\"]},\"args\":{\"type\":\"object\"}},\"required\":[\"operation\"]}"@,
            r is Ok,
    {
        Ok(
            String::from_str(
                "{\"type\":\"object\",\"properties\":{\"operation\":{\"type\":\"string\",\"enum\":[\"status\",\"commit\",\"add\",\"push\"]},\"args\":{\"type\":\"object\"}},\"required\":[\"operation\"]}",
            ),
        )
    }
}

/// Searches code with a pattern.
#[derive(Debug)]
pub struct CodeSearchTool;

impl CodeSearchTool {
    /// The registry entry this tool defines: its exact name,
    /// description and parameter schema.
    pub open spec fn describes(t: ToolSpec) -> bool {
        &&& t.name@ == "CodeSearchTool"@
        &&& t.description@ == "Searches for a pattern in code using ripgrep (rg). Args: {\"pattern\": string, \"path\": string (optional)}"@
        &&& t.parameters@ == "{\"type\":\"object\",\"properties\":{\"pattern\":{\"type\":\"string\"},\"path\":{\"type\":\"string\"}},\"required\":[\"pattern\"]}"@
    }

    pub fn name(&self) -> (r: String)
        ensures
            r@ == "CodeSearchTool"@,
    {
        String::from_str("CodeSearchTool")
    }

    pub fn description(&self) -> (r: String)
        ensures
            r@
                == "Searches for a pattern in code using ripgrep (rg). Args: {\"pattern\": string, \"path\": string (optional)}"@,
    {
        String::from_str(
            "Searches for a pattern in code using ripgrep (rg). Args: {\"pattern\": string, \"path\": string (optional)}",
        )
    }

    pub fn parameters_schema(&self) -> (r: Result<String, String>)
        ensures
            r matches Ok(s) ==> s@
                == "{\"type\":\"object\",\"properties\":{\"pattern\":{\"type\":\"string\"},\"path\":{\"type\":\"string\"}},\"required\":[\"pattern\"]}"@,
            r is Ok,
    {
        Ok(
            String::from_str(
                "{\"type\":\"object\",\"properties\":{\"pattern\":{\"type\":\"string\"},\"path\":{\"type\":\"string\"}},\"required\":[\"pattern\"]}",
            ),
        )
    }
}

/// Searches the workspace for files by name.
#[derive(Debug)]
pub struct FileSearchTool;

impl FileSearchTool {
    /// The registry entry this tool defines: its exact name,
    /// description and parameter schema.
    pub open spec fn describes(t: ToolSpec) -> bool {
        &&& t.name@ == "FileSearchTool"@
        &&& t.description@ == "Searches the project workspace for files with advanced filtering options. Args: {\"query\": string, \"extension\": string (optional), \"case_sensitive\": boolean (optional), \"include_hidden\": boolean (optional), \"max_results\": number (optional)}"@
        &&& t.parameters@ == "{\"type\":\"object\",\"properties\":{\"query\":{\"type\":\"string\",\"description\":\"Filename or partial path to search for.\"},\"extension\":{\"type\":\"string\",\"description\":\"Filter by file extension (e.g., 'rs', 'json', 'md').\"},\"case_sensitive\":{\"type\":\"boolean\",\"description\":\"Whether the search should be case sensitive (default: false).\"},\"include_hidden\":{\"type\":\"boolean\",\"description\":\"Whether to include hidden files/directories in the search (default: false).\"},\"max_results\":{\"type\":\"integer\",\"description\":\"Maximum number of results to return (default: 20).\"}},\"required\":[\"query\"]}"@
    }

    pub fn name(&self) -> (r: String)
        ensures
            r@ == "FileSearchTool"@,
    {
        String::from_str("FileSearchTool")
    }

    pub fn description(&self) -> (r: String)
        ensures
            r@
                == "Searches the project workspace for files with advanced filtering options. Args: {\"query\": string, \"extension\": string (optional), \"case_sensitive\": boolean (optional), \"include_hidden\": boolean (optional), \"max_results\": number (optional)}"@,
    {
        String::from_str(
            "Searches the project workspace for files with advanced filtering options. Args: {\"query\": string, \"extension\": string (optional), \"case_sensitive\": boolean (optional), \"include_hidden\": boolean (optional), \"max_results\": number (optional)}",
        )
    }

    pub fn parameters_schema(&self) -> (r: Result<String, String>)
        ensures
            r matches Ok(s) ==> s@
                == "{\"type\":\"object\",\"properties\":{\"query\":{\"type\":\"string\",\"description\":\"Filename or partial path to search for.\"},\"extension\":{\"type\":\"string\",\"description\":\"Filter by file extension (e.g., 'rs', 'json', 'md').\"},\"case_sensitive\":{\"type\":\"boolean\",\"description\":\"Whether the search should be case sensitive (default: false).\"},\"include_hidden\":{\"type\":\"boolean\",\"description\":\"Whether to include hidden files/directories in the search (default: false).\"},\"max_results\":{\"type\":\"integer\",\"description\":\"Maximum number of results to return (default: 20).\"}},\"required\":[\"query\"]}"@,
            r is Ok,
    {
        Ok(
            String::from_str(
                "{\"type\":\"object\",\"properties\":{\"query\":{\"type\":\"string\",\"description\":\"Filename or partial path to search for.\"},\"extension\":{\"type\":\"string\",\"description\":\"Filter by file extension (e.g., 'rs', 'json', 'md').\"},\"case_sensitive\":{\"type\":\"boolean\",\"description\":\"Whether the search should be case sensitive (default: false).\"},\"include_hidden\":{\"type\":\"boolean\",\"description\":\"Whether to include hidden files/directories in the search (default: false).\"},\"max_results\":{\"type\":\"integer\",\"description\":\"Maximum number of results to return (default: 20).\"}},\"required\":[\"query\"]}",
            ),
        )
    }
}

/// Creates a directory.
#[derive(Debug)]
pub struct CreateDirectoryTool;

impl CreateDirectoryTool {
    /// The registry entry this tool defines: its exact name,
    /// description and parameter schema.
    pub open spec fn describes(t: ToolSpec) -> bool {
        &&& t.name@ == "CreateDirectoryTool"@
        &&& t.description@ == "Creates a directory. Args: {\"path\": string}"@
        &&& t.parameters@ == "{\"type\":\"object\",\"properties\":{\"path\":{\"type\":\"string\"}},\"required\":[\"path\"]}"@
    }

    pub fn name(&self) -> (r: String)
        ensures
            r@ == "CreateDirectoryTool"@,
    {
        String::from_str("CreateDirectoryTool")
    }

    pub fn description(&self) -> (r: String)
        ensures
            r@ == "Creates a directory. Args: {\"path\": string}"@,
    {
        String::from_str("Creates a directory. Args: {\"path\": string}")
    }

    pub fn parameters_schema(&self) -> (r: Result<String, String>)
        ensures
            r matches Ok(s) ==> s@
                == "{\"type\":\"object\",\"properties\":{\"path\":{\"type\":\"string\"}},\"required\":[\"path\"]}"@,
            r is Ok,
    {
        Ok(
            String::from_str(
                "{\"type\":\"object\",\"properties\":{\"path\":{\"type\":\"string\"}},\"required\":[\"path\"]}",
            ),
        )
    }
}

/// Deletes a file or directory.
#[derive(Debug)]
pub struct DeleteTool;

impl DeleteTool {
    /// The registry entry this tool defines: its exact name,
    /// description and parameter schema.
    pub open spec fn describes(t: ToolSpec) -> bool {
        &&& t.name@ == "DeleteTool"@
        &&& t.description@ == "Deletes a file or directory. Args: {\"path\": string}"@
        &&& t.parameters@ == "{\"type\":\"object\",\"properties\":{\"path\":{\"type\":\"string\"}},\"required\":[\"path\"]}"@
    }

    pub fn name(&self) -> (r: String)
        ensures
            r@ == "DeleteTool"@,
    {
        String::from_str("DeleteTool")
    }

    pub fn description(&self) -> (r: String)
        ensures
            r@ == "Deletes a file or directory. Args: {\"path\": string}"@,
    {
        String::from_str("Deletes a file or directory. Args: {\"path\": string}")
    }

    pub fn parameters_schema(&self) -> (r: Result<String, String>)
        ensures
            r matches Ok(s) ==> s@
                == "{\"type\":\"object\",\"properties\":{\"path\":{\"type\":\"string\"}},\"required\":[\"path\"]}"@,
            r is Ok,
    {
        Ok(
            String::from_str(
                "{\"type\":\"object\",\"properties\":{\"path\":{\"type\":\"string\"}},\"required\":[\"path\"]}",
            ),
        )
    }
}

/// Lists the files under a directory.
#[derive(Debug)]
pub struct ListFilesTool;

impl ListFilesTool {
    /// The registry entry this tool defines: its exact name,
    /// description and parameter schema.
    pub open spec fn describes(t: ToolSpec) -> bool {
        &&& t.name@ == "ListFilesTool"@
        &&& t.description@ == "Lists the files under a directory. Args: {\"path\": string (optional)}"@
        &&& t.parameters@ == "{\"type\":\"object\",\"properties\":{\"path\":{\"type\":\"string\"}}}"@
    }

    pub fn name(&self) -> (r: String)
        ensures
            r@ == "ListFilesTool"@,
    {
        String::from_str("ListFilesTool")
    }

    pub fn description(&self) -> (r: String)
        ensures
            r@ == "Lists the files under a directory. Args: {\"path\": string (optional)}"@,
    {
        String::from_str("Lists the files under a directory. Args: {\"path\": string (optional)}")
    }

    pub fn parameters_schema(&self) -> (r: Result<String, String>)
        ensures
            r matches Ok(s) ==> s@
                == "{\"type\":\"object\",\"properties\":{\"path\":{\"type\":\"string\"}}}"@,
            r is Ok,
    {
        Ok(String::from_str("{\"type\":\"object\",\"properties\":{\"path\":{\"type\":\"string\"}}}"))
    }
}

/// A tool declared by the user in the configuration: its schema is
/// validated once, when the tool is built.
#[derive(Debug)]
pub struct UserDefinedTool {
    name: String,
    description: String,
    input_schema_text: String,
    command_template: String,
}

impl UserDefinedTool {
    pub closed spec fn name_view(&self) -> Seq<char> {
        self.name@
    }

    pub closed spec fn description_view(&self) -> Seq<char> {
        self.description@
    }

    pub closed spec fn schema_view(&self) -> Seq<char> {
        self.input_schema_text@
    }

    pub closed spec fn template_view(&self) -> Seq<char> {
        self.command_template@
    }

    /// Builds a user tool, accepting it exactly when its declared
    /// schema is JSON text that compiles as a JSON Schema.
    pub fn new(config: &UserToolConfig) -> (r: Result<UserDefinedTool, String>)
        ensures
            r is Ok <==> json_wf(config.input_schema@) && schema_compiles(config.input_schema@),
            r matches Ok(t) ==> {
                &&& t.name_view() == config.name@
                &&& t.description_view() == config.description@
                &&& t.schema_view() == config.input_schema@
                &&& t.template_view() == config.command_template@
            },
    {
        let doc = match parse_json(config.input_schema.as_str()) {
            Ok(doc) => doc,
            Err(e) => {
                return Err(e);
            },
        };
        match compile_schema_check(&doc) {
            Ok(()) => Ok(
                UserDefinedTool {
                    name: config.name.clone(),
                    description: config.description.clone(),
                    input_schema_text: config.input_schema.clone(),
                    command_template: config.command_template.clone(),
                },
            ),
            Err(e) => Err(e),
        }
    }

    pub fn name(&self) -> (r: String)
        ensures
            r@ == self.name_view(),
    {
        self.name.clone()
    }

    pub fn description(&self) -> (r: String)
        ensures
            r@ == self.description_view(),
    {
        self.description.clone()
    }

    pub fn parameters_schema(&self) -> (r: Result<String, String>)
        ensures
            r matches Ok(s) ==> s@ == self.schema_view(),
            r is Ok,
    {
        Ok(self.input_schema_text.clone())
    }

    /// The command template the host substitutes arguments into.
    pub fn command_template(&self) -> (r: &String)
        ensures
            r@ == self.template_view(),
    {
        &self.command_template
    }
}

} // verus!

//! The code-definition-listing tool's definition and value types.  The
//! code-symbol parsing itself is done by the host.

use vstd::prelude::*;

verus! {

use crate::registry::ToolSpec;

/// Arguments of a definition listing.
#[derive(Debug)]
pub struct ListCodeDefinitionsInput {
    pub path: String,
}

/// One discovered definition: its name and what kind of item it is.
#[derive(Debug)]
pub struct CodeDefinition {
    pub name: String,
    pub kind: String,
}

/// All definitions found in one file.
#[derive(Debug)]
pub struct ListCodeDefinitionsOutput {
    pub definitions: Vec<CodeDefinition>,
}

/// Lists definition names (functions, structs, enums, traits, impls)
/// from a source file.
#[derive(Debug)]
pub struct ListCodeDefinitionsTool;

impl ListCodeDefinitionsTool {
    /// The registry entry this tool defines: its exact name,
    /// description and parameter schema.
    pub open spec fn describes(t: ToolSpec) -> bool {
        &&& t.name@ == "list_code_definition_names"@
        &&& t.description@ == "Request to list definition names (classes, functions, methods, etc.) from source code. Analyzes a single file specified by path. Provides insights into the codebase structure and important constructs."@
        &&& t.parameters@ == "{\"type\":\"object\",\"properties\":{\"path\":{\"type\":\"string\",\"description\":\"The path of the file or directory to analyze.\"}},\"required\":[\"path\"]}"@
    }

    pub fn name(&self) -> (r: String)
        ensures
            r@ == "list_code_definition_names"@,
    {
        String::from_str("list_code_definition_names")
    }

    pub fn description(&self) -> (r: String)
        ensures
            r@
                == "Request to list definition names (classes, functions, methods, etc.) from source code. Analyzes a single file specified by path. Provides insights into the codebase structure and important constructs."@,
    {
        String::from_str(
            "Request to list definition names (classes, functions, methods, etc.) from source code. Analyzes a single file specified by path. Provides insights into the codebase structure and important constructs.",
        )
    }

    pub fn parameters_schema(&self) -> (r: Result<String, String>)
        ensures
            r matches Ok(s) ==> s@
                == "{\"type\":\"object\",\"properties\":{\"path\":{\"type\":\"string\",\"description\":\"The path of the file or directory to analyze.\"}},\"required\":[\"path\"]}"@,
            r is Ok,
    {
        Ok(
            String::from_str(
                "{\"type\":\"object\",\"properties\":{\"path\":{\"type\":\"string\",\"description\":\"The path of the file or directory to analyze.\"}},\"required\":[\"path\"]}",
            ),
        )
    }
}

} // verus!

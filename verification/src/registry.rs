//! The tool registry: the fixed set of built-in tools plus the user's
//! configured tools, keyed by name, read-only once built.

use vstd::prelude::*;

verus! {

use crate::code_intelligence::ListCodeDefinitionsTool;
use crate::command_execution::ExecuteCommandTool;
use crate::config::Config;
use crate::models::{FunctionDefinition, ToolDefinition};
use crate::text::str_eq;
use crate::tools::{
    CodeSearchTool, CreateDirectoryTool, DeleteTool, FileReadTool, FileSearchTool, FileWriteTool,
    GitTool, ListFilesTool, ShellCommandTool, UserDefinedTool,
};
use crate::web_search::WebSearchTool;

/// One registered tool: its name, description and parameter schema as
/// JSON text.
#[derive(Debug)]
pub struct ToolSpec {
    pub name: String,
    pub description: String,
    pub parameters: String,
}

impl Clone for ToolSpec {
    fn clone(&self) -> (res: Self)
        ensures
            res == *self,
    {
        ToolSpec {
            name: self.name.clone(),
            description: self.description.clone(),
            parameters: self.parameters.clone(),
        }
    }
}

impl ToolSpec {
    /// The tool's name.
    pub fn name(&self) -> (r: String)
        ensures
            r@ == self.name@,
    {
        self.name.clone()
    }

    /// The tool's description.
    pub fn description(&self) -> (r: String)
        ensures
            r@ == self.description@,
    {
        self.description.clone()
    }

    /// The tool's parameter schema, as JSON text.
    pub fn parameters_schema(&self) -> (r: Result<String, String>)
        ensures
            r matches Ok(s) ==> s@ == self.parameters@,
            r is Ok,
    {
        Ok(self.parameters.clone())
    }
}

/// The first tool of that name, if any.
pub open spec fn lookup(tools: Seq<ToolSpec>, name: Seq<char>) -> Option<ToolSpec>
    decreases tools.len(),
{
    if tools.len() == 0 {
        None
    } else if tools[0].name@ == name {
        Some(tools[0])
    } else {
        lookup(tools.skip(1), name)
    }
}

/// Whether a tool of that name is registered.
pub open spec fn has_tool(tools: Seq<ToolSpec>, name: Seq<char>) -> bool {
    lookup(tools, name) is Some
}

/// A tool at an index that no earlier index names is what lookup finds.
proof fn lemma_lookup_found(tools: Seq<ToolSpec>, name: Seq<char>, i: int)
    requires
        0 <= i < tools.len(),
        forall|k: int| 0 <= k < i ==> tools[k].name@ != name,
        tools[i].name@ == name,
    ensures
        lookup(tools, name) == Some(tools[i]),
    decreases i,
{
    if i > 0 {
        lemma_lookup_found(tools.skip(1), name, i - 1);
    }
}

/// When no tool has the name, lookup finds none.
proof fn lemma_lookup_none(tools: Seq<ToolSpec>, name: Seq<char>)
    requires
        forall|k: int| 0 <= k < tools.len() ==> tools[k].name@ != name,
    ensures
        lookup(tools, name) is None,
    decreases tools.len(),
{
    if tools.len() > 0 {
        lemma_lookup_none(tools.skip(1), name);
    }
}

/// Manages the collection of available tools.  Read-only after
/// construction; names are unique.
#[derive(Debug)]
pub struct ToolRegistry {
    tools: Vec<ToolSpec>,
}

impl ToolRegistry {
    /// The registered tools, in registration order.
    pub closed spec fn tools_view(&self) -> Seq<ToolSpec> {
        self.tools@
    }

    /// Names are pairwise distinct.
    pub open spec fn wf(&self) -> bool {
        forall|i: int, j: int|
            0 <= i < j < self.tools_view().len() ==> (#[trigger] self.tools_view()[i]).name@ != (
            #[trigger] self.tools_view()[j]).name@
    }

    /// An empty registry.
    pub fn empty() -> (r: ToolRegistry)
        ensures
            r.wf(),
            r.tools_view().len() == 0,
    {
        ToolRegistry { tools: Vec::new() }
    }

    /// Builds the standard registry: the twelve built-in tools, each
    /// under its exact definition, then the user's configured tools; a
    /// user tool whose schema does not compile is skipped.  (A user
    /// tool may shadow a built-in name, so the exact entries are
    /// promised when no user tools are configured.)
    pub fn new(config: &Config) -> (r: ToolRegistry)
        ensures
            r.wf(),
            config.usertools is None ==> r.tools_view().len() == 12,
            has_tool(r.tools_view(), "FileReadTool"@),
            has_tool(r.tools_view(), "FileWriteTool"@),
            has_tool(r.tools_view(), "ShellCommandTool"@),
            has_tool(r.tools_view(), "GitTool"@),
            has_tool(r.tools_view(), "web_search"@),
            has_tool(r.tools_view(), "CodeSearchTool"@),
            has_tool(r.tools_view(), "FileSearchTool"@),
            has_tool(r.tools_view(), "CreateDirectoryTool"@),
            has_tool(r.tools_view(), "DeleteTool"@),
            has_tool(r.tools_view(), "ListFilesTool"@),
            has_tool(r.tools_view(), "list_code_definition_names"@),
            has_tool(r.tools_view(), "execute_command"@),
            config.usertools is None ==> (lookup(r.tools_view(), "FileReadTool"@) matches Some(t)
                && FileReadTool::describes(t)),
            config.usertools is None ==> (lookup(r.tools_view(), "FileWriteTool"@) matches Some(t)
                && FileWriteTool::describes(t)),
            config.usertools is None ==> (lookup(r.tools_view(), "ShellCommandTool"@) matches Some(t)
                && ShellCommandTool::describes(t)),
            config.usertools is None ==> (lookup(r.tools_view(), "GitTool"@) matches Some(t)
                && GitTool::describes(t)),
            config.usertools is None ==> (lookup(r.tools_view(), "web_search"@) matches Some(t)
                && WebSearchTool::describes(t)),
            config.usertools is None ==> (lookup(r.tools_view(), "CodeSearchTool"@) matches Some(t)
                && CodeSearchTool::describes(t)),
            config.usertools is None ==> (lookup(r.tools_view(), "FileSearchTool"@) matches Some(t)
                && FileSearchTool::describes(t)),
            config.usertools is None ==> (lookup(r.tools_view(), "CreateDirectoryTool"@) matches Some(t)
                && CreateDirectoryTool::describes(t)),
            config.usertools is None ==> (lookup(r.tools_view(), "DeleteTool"@) matches Some(t)
                && DeleteTool::describes(t)),
            config.usertools is None ==> (lookup(r.tools_view(), "ListFilesTool"@) matches Some(t)
                && ListFilesTool::describes(t)),
            config.usertools is None ==> (lookup(r.tools_view(), "list_code_definition_names"@) matches Some(t)
                && ListCodeDefinitionsTool::describes(t)),
            config.usertools is None ==> (lookup(r.tools_view(), "execute_command"@) matches Some(t)
                && ExecuteCommandTool::describes(t)),
    {
        let mut registry = ToolRegistry { tools: Vec::new() };
        proof {
            reveal_strlit("FileReadTool");
            reveal_strlit("FileWriteTool");
            reveal_strlit("ShellCommandTool");
            reveal_strlit("GitTool");
            reveal_strlit("web_search");
            reveal_strlit("CodeSearchTool");
            reveal_strlit("FileSearchTool");
            reveal_strlit("CreateDirectoryTool");
            reveal_strlit("DeleteTool");
            reveal_strlit("ListFilesTool");
            reveal_strlit("list_code_definition_names");
            reveal_strlit("execute_command");
            // Most names differ in length alone; the three pairs of
            // equal length are told apart by their first character.
            assert("FileReadTool"@.len() == 12);
            assert("FileWriteTool"@.len() == 13);
            assert("ShellCommandTool"@.len() == 16);
            assert("GitTool"@.len() == 7);
            assert("web_search"@.len() == 10);
            assert("CodeSearchTool"@.len() == 14);
            assert("FileSearchTool"@.len() == 14);
            assert("CreateDirectoryTool"@.len() == 19);
            assert("DeleteTool"@.len() == 10);
            assert("ListFilesTool"@.len() == 13);
            assert("list_code_definition_names"@.len() == 26);
            assert("execute_command"@.len() == 15);
            assert("CodeSearchTool"@ != "FileSearchTool"@) by {
                assert("CodeSearchTool"@[0] == 'C' && "FileSearchTool"@[0] == 'F');
            }
            assert("web_search"@ != "DeleteTool"@) by {
                assert("web_search"@[0] == 'w' && "DeleteTool"@[0] == 'D');
            }
            assert("FileWriteTool"@ != "ListFilesTool"@) by {
                assert("FileWriteTool"@[0] == 'F' && "ListFilesTool"@[0] == 'L');
            }
        }
        let t = FileReadTool;
        registry.register(
            ToolSpec {
                name: t.name(),
                description: t.description(),
                parameters: t.parameters_schema().unwrap(),
            },
        );
        let t = FileWriteTool;
        registry.register(
            ToolSpec {
                name: t.name(),
                description: t.description(),
                parameters: t.parameters_schema().unwrap(),
            },
        );
        let t = ShellCommandTool;
        registry.register(
            ToolSpec {
                name: t.name(),
                description: t.description(),
                parameters: t.parameters_schema().unwrap(),
            },
        );
        let t = GitTool;
        registry.register(
            ToolSpec {
                name: t.name(),
                description: t.description(),
                parameters: t.parameters_schema().unwrap(),
            },
        );
        let t = WebSearchTool;
        registry.register(
            ToolSpec {
                name: t.name(),
                description: t.description(),
                parameters: t.parameters_schema().unwrap(),
            },
        );
        let t = CodeSearchTool;
        registry.register(
            ToolSpec {
                name: t.name(),
                description: t.description(),
                parameters: t.parameters_schema().unwrap(),
            },
        );
        let t = FileSearchTool;
        registry.register(
            ToolSpec {
                name: t.name(),
                description: t.description(),
                parameters: t.parameters_schema().unwrap(),
            },
        );
        let t = CreateDirectoryTool;
        registry.register(
            ToolSpec {
                name: t.name(),
                description: t.description(),
                parameters: t.parameters_schema().unwrap(),
            },
        );
        let t = DeleteTool;
        registry.register(
            ToolSpec {
                name: t.name(),
                description: t.description(),
                parameters: t.parameters_schema().unwrap(),
            },
        );
        let t = ListFilesTool;
        registry.register(
            ToolSpec {
                name: t.name(),
                description: t.description(),
                parameters: t.parameters_schema().unwrap(),
            },
        );
        let t = ListCodeDefinitionsTool;
        registry.register(
            ToolSpec {
                name: t.name(),
                description: t.description(),
                parameters: t.parameters_schema().unwrap(),
            },
        );
        let t = ExecuteCommandTool;
        registry.register(
            ToolSpec {
                name: t.name(),
                description: t.description(),
                parameters: t.parameters_schema().unwrap(),
            },
        );
        if let Some(user_tool_configs) = &config.usertools {
            let mut i: usize = 0;
            while i < user_tool_configs.len()
                invariant
                    registry.wf(),
                    has_tool(registry.tools_view(), "FileReadTool"@),
                    has_tool(registry.tools_view(), "FileWriteTool"@),
                    has_tool(registry.tools_view(), "ShellCommandTool"@),
                    has_tool(registry.tools_view(), "GitTool"@),
                    has_tool(registry.tools_view(), "web_search"@),
                    has_tool(registry.tools_view(), "CodeSearchTool"@),
                    has_tool(registry.tools_view(), "FileSearchTool"@),
                    has_tool(registry.tools_view(), "CreateDirectoryTool"@),
                    has_tool(registry.tools_view(), "DeleteTool"@),
                    has_tool(registry.tools_view(), "ListFilesTool"@),
                    has_tool(registry.tools_view(), "list_code_definition_names"@),
                    has_tool(registry.tools_view(), "execute_command"@),
                decreases user_tool_configs.len() - i,
            {
                match UserDefinedTool::new(&user_tool_configs[i]) {
                    Ok(user_tool) => {
                        let spec_entry = ToolSpec {
                            name: user_tool.name(),
                            description: user_tool.description(),
                            parameters: user_tool.parameters_schema().unwrap(),
                        };
                        registry.register(spec_entry);
                    },
                    Err(_) => {
                        // A tool whose schema does not compile is left
                        // out, as the window of available tools must
                        // stay usable.
                    },
                }
                i = i + 1;
            }
        }
        registry
    }

    /// Registers a tool, replacing any previous tool of the same name.
    pub fn register(&mut self, tool: ToolSpec)
        requires
            old(self).wf(),
        ensures
            final(self).wf(),
            lookup(final(self).tools_view(), tool.name@) == Some(tool),
            forall|n: Seq<char>|
                n != tool.name@ ==> #[trigger] lookup(final(self).tools_view(), n) == lookup(
                    old(self).tools_view(),
                    n,
                ),
            final(self).tools_view().len() == old(self).tools_view().len() + (
            if has_tool(old(self).tools_view(), tool.name@) {
                0int
            } else {
                1int
            }),
    {
        let ghost old_view = self.tools@;
        let mut existing: Option<usize> = None;
        let mut i: usize = 0;
        while i < self.tools.len()
            invariant
                self.tools@ == old_view,
                i <= old_view.len(),
                existing matches Some(e) ==> e < i && old_view[e as int].name@ == tool.name@,
                existing is None ==> forall|k: int| 0 <= k < i ==> old_view[k].name@ != tool.name@,
            decreases old_view.len() - i,
        {
            if str_eq(self.tools[i].name.as_str(), tool.name.as_str()) {
                if existing.is_none() {
                    existing = Some(i);
                }
            }
            i = i + 1;
        }
        match existing {
            Some(e) => {
                proof {
                    lemma_lookup_found(old_view, tool.name@, e as int);
                }
                self.tools.remove(e);
                self.tools.push(tool);
                proof {
                    let v2 = self.tools@;
                    assert(v2.len() == old_view.len());
                    assert(forall|k: int|
                        0 <= k < e ==> v2[k] == old_view[k] && old_view[k].name@ != tool.name@);
                    assert(forall|k: int|
                        e <= k < v2.len() - 1 ==> v2[k] == old_view[k + 1]);
                    assert(forall|k: int|
                        0 <= k < v2.len() - 1 ==> v2[k].name@ != tool.name@);
                    lemma_lookup_found(v2, tool.name@, v2.len() - 1);
                    assert forall|n: Seq<char>| n != tool.name@ implies #[trigger] lookup(v2, n)
                        == lookup(old_view, n) by {
                        Self::lemma_reorder_lookup(old_view, v2, n, e as int);
                    }
                }
            },
            None => {
                proof {
                    lemma_lookup_none(old_view, tool.name@);
                }
                self.tools.push(tool);
                proof {
                    let v2 = self.tools@;
                    assert(forall|k: int| 0 <= k < v2.len() - 1 ==> v2[k] == old_view[k]);
                    lemma_lookup_found(v2, tool.name@, v2.len() - 1);
                    assert forall|n: Seq<char>| n != tool.name@ implies #[trigger] lookup(v2, n)
                        == lookup(old_view, n) by {
                        Self::lemma_push_lookup(old_view, v2, n);
                    }
                }
            },
        }
    }

    /// Removing the unique entry of the new name and appending the new
    /// tool leaves every other lookup unchanged.
    proof fn lemma_reorder_lookup(old_view: Seq<ToolSpec>, v2: Seq<ToolSpec>, n: Seq<char>, e: int)
        requires
            0 <= e < old_view.len(),
            v2.len() == old_view.len(),
            forall|k: int| 0 <= k < e ==> v2[k] == old_view[k],
            forall|k: int| e <= k < v2.len() - 1 ==> v2[k] == old_view[k + 1],
            n != old_view[e].name@,
            v2[v2.len() - 1].name@ == old_view[e].name@,
            forall|i: int, j: int|
                0 <= i < j < old_view.len() ==> (#[trigger] old_view[i]).name@ != (
                #[trigger] old_view[j]).name@,
        ensures
            lookup(v2, n) == lookup(old_view, n),
    {
        if exists|k: int| 0 <= k < old_view.len() && (#[trigger] old_view[k]).name@ == n {
            let m = choose|m: int| 0 <= m < old_view.len() && (#[trigger] old_view[m]).name@ == n;
            assert(forall|k: int| 0 <= k < old_view.len() && k != m ==> old_view[k].name@ != n);
            lemma_lookup_found(old_view, n, m);
            if m < e {
                lemma_lookup_found(v2, n, m);
            } else {
                assert(m > e);
                assert(v2[m - 1] == old_view[m]);
                assert(forall|k: int| 0 <= k < m - 1 ==> v2[k].name@ != n);
                lemma_lookup_found(v2, n, m - 1);
            }
        } else {
            lemma_lookup_none(old_view, n);
            assert(forall|k: int| 0 <= k < v2.len() ==> v2[k].name@ != n);
            lemma_lookup_none(v2, n);
        }
    }

    /// Appending a tool of another name leaves a lookup unchanged.
    proof fn lemma_push_lookup(old_view: Seq<ToolSpec>, v2: Seq<ToolSpec>, n: Seq<char>)
        requires
            v2.len() == old_view.len() + 1,
            forall|k: int| 0 <= k < old_view.len() ==> v2[k] == old_view[k],
            v2[v2.len() - 1].name@ != n,
            forall|i: int, j: int|
                0 <= i < j < old_view.len() ==> (#[trigger] old_view[i]).name@ != (
                #[trigger] old_view[j]).name@,
        ensures
            lookup(v2, n) == lookup(old_view, n),
    {
        if exists|k: int| 0 <= k < old_view.len() && (#[trigger] old_view[k]).name@ == n {
            let m = choose|m: int| 0 <= m < old_view.len() && (#[trigger] old_view[m]).name@ == n;
            assert(forall|k: int| 0 <= k < old_view.len() && k != m ==> old_view[k].name@ != n);
            lemma_lookup_found(old_view, n, m);
            lemma_lookup_found(v2, n, m);
        } else {
            lemma_lookup_none(old_view, n);
            lemma_lookup_none(v2, n);
        }
    }

    /// Looks a tool up by name.
    pub fn get_tool(&self, name: &str) -> (r: Option<&ToolSpec>)
        ensures
            r matches Some(t) ==> lookup(self.tools_view(), name@) == Some(*t),
            r is None <==> lookup(self.tools_view(), name@) is None,
    {
        let mut i: usize = 0;
        while i < self.tools.len()
            invariant
                i <= self.tools_view().len(),
                forall|k: int| 0 <= k < i ==> (#[trigger] self.tools_view()[k]).name@ != name@,
            decreases self.tools_view().len() - i,
        {
            if str_eq(self.tools[i].name.as_str(), name) {
                proof {
                    lemma_lookup_found(self.tools_view(), name@, i as int);
                }
                return Some(&self.tools[i]);
            }
            i = i + 1;
        }
        proof {
            lemma_lookup_none(self.tools_view(), name@);
        }
        None
    }

    /// Number of registered tools.
    pub fn tool_count(&self) -> (r: usize)
        ensures
            r == self.tools_view().len(),
    {
        self.tools.len()
    }

    /// Renders every registered tool as a definition for the remote
    /// endpoint, in registration order.
    pub fn get_tool_definitions(&self) -> (r: Result<Vec<ToolDefinition>, String>)
        ensures
            r is Ok,
            r matches Ok(v) ==> {
                &&& v@.len() == self.tools_view().len()
                &&& forall|i: int|
                    0 <= i < v@.len() ==> {
                        &&& (#[trigger] v@[i]).tool_type@ == "function"@
                        &&& v@[i].function.name@ == self.tools_view()[i].name@
                        &&& v@[i].function.description@ == self.tools_view()[i].description@
                        &&& v@[i].function.parameters@ == self.tools_view()[i].parameters@
                    }
            },
    {
        let mut defs: Vec<ToolDefinition> = Vec::new();
        let mut i: usize = 0;
        while i < self.tools.len()
            invariant
                i <= self.tools_view().len(),
                defs@.len() == i,
                forall|k: int|
                    0 <= k < i ==> {
                        &&& (#[trigger] defs@[k]).tool_type@ == "function"@
                        &&& defs@[k].function.name@ == self.tools_view()[k].name@
                        &&& defs@[k].function.description@ == self.tools_view()[k].description@
                        &&& defs@[k].function.parameters@ == self.tools_view()[k].parameters@
                    },
            decreases self.tools_view().len() - i,
        {
            let t = &self.tools[i];
            defs.push(
                ToolDefinition {
                    tool_type: String::from_str("function"),
                    function: FunctionDefinition {
                        name: t.name.clone(),
                        description: t.description.clone(),
                        parameters: t.parameters.clone(),
                    },
                },
            );
            i = i + 1;
        }
        Ok(defs)
    }

    /// The parameter schemas of every registered tool, in registration
    /// order.
    pub fn get_tool_schemas(&self) -> (r: Result<Vec<String>, String>)
        ensures
            r is Ok,
            r matches Ok(v) ==> {
                &&& v@.len() == self.tools_view().len()
                &&& forall|i: int|
                    0 <= i < v@.len() ==> (#[trigger] v@[i])@ == self.tools_view()[i].parameters@
            },
    {
        let mut schemas: Vec<String> = Vec::new();
        let mut i: usize = 0;
        while i < self.tools.len()
            invariant
                i <= self.tools_view().len(),
                schemas@.len() == i,
                forall|k: int|
                    0 <= k < i ==> (#[trigger] schemas@[k])@ == self.tools_view()[k].parameters@,
            decreases self.tools_view().len() - i,
        {
            schemas.push(self.tools[i].parameters.clone());
            i = i + 1;
        }
        Ok(schemas)
    }
}

} // verus!

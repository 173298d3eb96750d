//! The tool execution engine: the security-policy gate and the
//! dispatch of one validated call through a [`ToolHost`], normalized
//! into the uniform result envelope.

use vstd::prelude::*;

verus! {

use crate::registry::{lookup, ToolRegistry, ToolSpec};
use crate::text::str_eq;
use crate::tool_result_format::{envelope_err, envelope_ok, format_tool_result};
use crate::tools::ToolHost;

/// The security policy a session runs its tools under.
#[derive(Debug)]
pub enum SecurityPolicy {
    AllowAll,
    ConfirmWrites,
}

/// The tools the confirm-writes policy gates: exactly those that
/// write files, run commands or touch the repository.
pub open spec fn write_gated(name: Seq<char>) -> bool {
    name == "FileWriteTool"@ || name == "ShellCommandTool"@ || name == "GitTool"@
}

/// The message reported for a name the registry does not know.
pub open spec fn msg_unknown_tool(name: Seq<char>) -> Seq<char> {
    "Tool '"@ + name + "' not found"@
}

/// Dispatches tool calls against a fixed registry under a policy.
#[derive(Debug)]
pub struct ToolExecutionEngine<'a> {
    registry: &'a ToolRegistry,
    policy: SecurityPolicy,
}

impl<'a> ToolExecutionEngine<'a> {
    /// The tools the engine dispatches against.
    pub closed spec fn reg(&self) -> Seq<ToolSpec> {
        self.registry.tools_view()
    }

    /// Whether writes must be confirmed.
    pub closed spec fn confirms_writes(&self) -> bool {
        self.policy is ConfirmWrites
    }

    pub fn new(registry: &'a ToolRegistry, policy: SecurityPolicy) -> (r: Self)
        ensures
            r.reg() == registry.tools_view(),
            r.confirms_writes() == (policy is ConfirmWrites),
    {
        ToolExecutionEngine { registry, policy }
    }

    /// The registry the engine dispatches against.
    pub fn registry(&self) -> (r: &'a ToolRegistry)
        ensures
            r.tools_view() == self.reg(),
    {
        self.registry
    }

    /// Whether this tool needs interactive confirmation before it may
    /// run.
    pub fn needs_confirmation(&self, tool_name: &str) -> (r: bool)
        ensures
            r == (self.confirms_writes() && write_gated(tool_name@)),
    {
        match self.policy {
            SecurityPolicy::AllowAll => false,
            SecurityPolicy::ConfirmWrites => str_eq(tool_name, "FileWriteTool") || str_eq(
                tool_name,
                "ShellCommandTool",
            ) || str_eq(tool_name, "GitTool"),
        }
    }

    /// Runs one call and returns the uniform envelope together with
    /// whether the call succeeded.  Two decisions are the engine's
    /// own, never reach the host (which those clauses state: the host
    /// is left untouched), and carry their exact envelopes: a name
    /// absent from the registry, and a gated call whose confirmation
    /// was not granted.  For the rest, whatever the host returned is
    /// normalized into the envelope, success or error.
    pub fn execute_tool_call<H: ToolHost>(
        &self,
        host: &mut H,
        tool_name: &str,
        arguments: &str,
        confirmed: bool,
    ) -> (r: (String, bool))
        ensures
            lookup(self.reg(), tool_name@) is None ==> !r.1 && r.0@ == envelope_err(
                tool_name@,
                msg_unknown_tool(tool_name@),
            ) && *final(host) == *old(host),
            (lookup(self.reg(), tool_name@) is Some && self.confirms_writes() && write_gated(
                tool_name@,
            ) && !confirmed) ==> !r.1 && r.0@ == envelope_err(
                tool_name@,
                "Execution denied by user"@,
            ) && *final(host) == *old(host),
            r.1 ==> exists|v: Seq<char>| r.0@ == envelope_ok(tool_name@, v),
            !r.1 ==> exists|m: Seq<char>| r.0@ == envelope_err(tool_name@, m),
    {
        if self.registry.get_tool(tool_name).is_none() {
            let mut message = String::from_str("Tool '");
            message.append(tool_name);
            message.append("' not found");
            let envelope = format_tool_result(tool_name, "", Some(message.as_str()));
            proof {
                assert(envelope@ == envelope_err(tool_name@, msg_unknown_tool(tool_name@)));
            }
            return (envelope, false);
        }
        if self.needs_confirmation(tool_name) && !confirmed {
            let envelope = format_tool_result(tool_name, "", Some("Execution denied by user"));
            proof {
                assert(envelope@ == envelope_err(tool_name@, "Execution denied by user"@));
            }
            return (envelope, false);
        }
        match host.execute_tool(tool_name, arguments) {
            Ok(result_json) => {
                let envelope = format_tool_result(tool_name, result_json.as_str(), None);
                proof {
                    assert(envelope@ == envelope_ok(tool_name@, result_json@));
                }
                (envelope, true)
            },
            Err(e) => {
                let text = e.message();
                let envelope = format_tool_result(tool_name, "", Some(text.as_str()));
                proof {
                    assert(envelope@ == envelope_err(tool_name@, text@));
                }
                (envelope, false)
            },
        }
    }
}

} // verus!

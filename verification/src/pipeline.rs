//! The tool invocation pipeline: detects the tool calls of a
//! response, parses each call's argument string as JSON, looks the
//! tool up, compiles its schema, validates the arguments against it,
//! and hands back validated calls — short-circuiting on the first
//! failure with an error that names the failing stage.

use vstd::prelude::*;

verus! {

use crate::json::{
    compile_schema_check, json_wf, parse_json, schema_accepts, schema_compiles,
    validate_against_schema,
};
use crate::models::{ChatCompletionResponse, ToolCall, ValidatedToolCall};
use crate::registry::{lookup, ToolRegistry, ToolSpec};
use crate::text::normalize_quotes;
use crate::text::str_eq;
use crate::tools::ToolError;

/// The tool calls a response asks to have executed: those of its
/// first choice, when that choice finished for tool calls.
pub open spec fn response_tool_calls(resp: ChatCompletionResponse) -> Seq<ToolCall> {
    if resp.choices.len() > 0 && resp.choices[0].finish_reason is Some
        && resp.choices[0].finish_reason->0@ == "tool_calls"@
        && resp.choices[0].message.tool_calls is Some {
        resp.choices[0].message.tool_calls->0@
    } else {
        Seq::empty()
    }
}

/// A call passes the pipeline: its arguments parse, its tool is
/// registered, the tool's schema parses and compiles, and the
/// arguments satisfy the schema.
pub open spec fn call_accepted(c: ToolCall, reg: Seq<ToolSpec>) -> bool {
    &&& json_wf(c.function.arguments@)
    &&& lookup(reg, c.function.name@) is Some
    &&& json_wf(lookup(reg, c.function.name@)->0.parameters@)
    &&& schema_compiles(lookup(reg, c.function.name@)->0.parameters@)
    &&& schema_accepts(lookup(reg, c.function.name@)->0.parameters@, c.function.arguments@)
}

/// The details reported when the argument string is not JSON.
pub open spec fn details_parse_failure(raw: Seq<char>, m: Seq<char>) -> Seq<char> {
    "Failed to parse JSON arguments: "@ + m + ". Raw: '"@ + raw + "'"@
}

/// The message reported for a tool the registry does not know.
pub open spec fn msg_tool_not_found(name: Seq<char>) -> Seq<char> {
    "Tool '"@ + name + "' requested by model not found in registry."@
}

/// The message reported when a tool's schema is not JSON.
pub open spec fn msg_schema_get_failure(name: Seq<char>, m: Seq<char>) -> Seq<char> {
    "Failed to get schema for tool '"@ + name + "': "@ + m
}

/// The message reported when a tool's schema does not compile.
pub open spec fn msg_schema_compile_failure(name: Seq<char>, m: Seq<char>) -> Seq<char> {
    "Failed to compile schema for tool '"@ + name + "': "@ + m
}

/// The details reported when the arguments fail schema validation.
pub open spec fn details_validation_failure(m: Seq<char>) -> Seq<char> {
    "Schema validation failed: "@ + m
}

/// The error the pipeline reports for a rejected call reflects the
/// call's first failing stage: a parse failure and a schema violation
/// are argument errors naming the tool, an unknown tool and a broken
/// schema are distinct internal errors.
pub open spec fn error_reflects_call(e: ToolError, c: ToolCall, reg: Seq<ToolSpec>) -> bool {
    if !json_wf(c.function.arguments@) {
        e matches ToolError::InvalidArguments { tool_name, details } && tool_name@
            == c.function.name@ && exists|m: Seq<char>|
            details@ == details_parse_failure(c.function.arguments@, m)
    } else if lookup(reg, c.function.name@) is None {
        e matches ToolError::Other { message } && message@ == msg_tool_not_found(c.function.name@)
    } else if !json_wf(lookup(reg, c.function.name@)->0.parameters@) {
        e matches ToolError::Other { message } && exists|m: Seq<char>|
            message@ == msg_schema_get_failure(c.function.name@, m)
    } else if !schema_compiles(lookup(reg, c.function.name@)->0.parameters@) {
        e matches ToolError::Other { message } && exists|m: Seq<char>|
            message@ == msg_schema_compile_failure(c.function.name@, m)
    } else {
        e matches ToolError::InvalidArguments { tool_name, details } && tool_name@
            == c.function.name@ && exists|m: Seq<char>| details@ == details_validation_failure(m)
    }
}


/// Runs one model-requested call through the validation stages of the
/// pipeline: parse the argument string as JSON, look the tool up,
/// parse and compile its schema, validate the arguments against it.
/// Succeeds, with the argument text unchanged, exactly when every
/// stage passes; fails with the first failing stage's error.
pub fn validate_tool_call(tool_call: &ToolCall, tool_registry: &ToolRegistry) -> (r: Result<
    ValidatedToolCall,
    ToolError,
>)
    ensures
        r is Ok <==> call_accepted(*tool_call, tool_registry.tools_view()),
        r matches Ok(v) ==> v.id@ == tool_call.id@ && v.name@ == tool_call.function.name@
            && v.arguments@ == tool_call.function.arguments@,
        r matches Err(e) ==> error_reflects_call(e, *tool_call, tool_registry.tools_view()),
{
    let ghost regv = tool_registry.tools_view();
    let tool_name = &tool_call.function.name;
    let arguments_str = &tool_call.function.arguments;

    let arguments_doc = match parse_json(arguments_str.as_str()) {
        Ok(d) => d,
        Err(e) => {
            let mut details = String::from_str("Failed to parse JSON arguments: ");
            details.append(e.as_str());
            details.append(". Raw: '");
            details.append(arguments_str.as_str());
            details.append("'");
            let err = ToolError::InvalidArguments { tool_name: tool_name.clone(), details };
            proof {
                assert(err->InvalidArguments_details@ == details_parse_failure(
                    tool_call.function.arguments@,
                    e@,
                ));
            }
            return Err(err);
        },
    };

    let tool = match tool_registry.get_tool(tool_name.as_str()) {
        Some(t) => t,
        None => {
            let mut message = String::from_str("Tool '");
            message.append(tool_name.as_str());
            message.append("' requested by model not found in registry.");
            proof {
                assert(message@ == msg_tool_not_found(tool_call.function.name@));
            }
            return Err(ToolError::Other { message });
        },
    };

    let schema_doc = match parse_json(tool.parameters.as_str()) {
        Ok(d) => d,
        Err(e) => {
            let mut message = String::from_str("Failed to get schema for tool '");
            message.append(tool_name.as_str());
            message.append("': ");
            message.append(e.as_str());
            proof {
                assert(message@ == msg_schema_get_failure(tool_call.function.name@, e@));
            }
            return Err(ToolError::Other { message });
        },
    };

    match compile_schema_check(&schema_doc) {
        Ok(()) => {},
        Err(e) => {
            let mut message = String::from_str("Failed to compile schema for tool '");
            message.append(tool_name.as_str());
            message.append("': ");
            message.append(e.as_str());
            proof {
                assert(message@ == msg_schema_compile_failure(tool_call.function.name@, e@));
            }
            return Err(ToolError::Other { message });
        },
    }

    match validate_against_schema(&schema_doc, &arguments_doc) {
        Ok(()) => {},
        Err(e) => {
            let mut details = String::from_str("Schema validation failed: ");
            let readable = normalize_quotes(e.as_str());
            details.append(readable.as_str());
            proof {
                assert(details@ == details_validation_failure(readable@));
            }
            return Err(ToolError::InvalidArguments { tool_name: tool_name.clone(), details });
        },
    }

    Ok(
        ValidatedToolCall {
            id: tool_call.id.clone(),
            name: tool_name.clone(),
            arguments: arguments_str.clone(),
        },
    )
}

/// Parses and validates the tool calls of a response against the
/// registry.  Succeeds with one validated call per requested call, in
/// request order and with the argument text unchanged, exactly when
/// every call passes; otherwise fails on the first rejected call with
/// an error reflecting its failing stage.
pub fn parse_and_validate_tool_calls(
    response: &ChatCompletionResponse,
    tool_registry: &ToolRegistry,
) -> (r: Result<Vec<ValidatedToolCall>, ToolError>)
    ensures
        r is Ok <==> (forall|i: int|
            0 <= i < response_tool_calls(*response).len() ==> call_accepted(
                #[trigger] response_tool_calls(*response)[i],
                tool_registry.tools_view(),
            )),
        r matches Ok(v) ==> {
            &&& v@.len() == response_tool_calls(*response).len()
            &&& forall|i: int|
                0 <= i < response_tool_calls(*response).len() ==> {
                    &&& (#[trigger] v@[i]).id@ == response_tool_calls(*response)[i].id@
                    &&& v@[i].name@ == response_tool_calls(*response)[i].function.name@
                    &&& v@[i].arguments@ == response_tool_calls(*response)[i].function.arguments@
                }
        },
        r matches Err(e) ==> exists|i: int|
            {
                &&& 0 <= i < response_tool_calls(*response).len()
                &&& !call_accepted(
                    #[trigger] response_tool_calls(*response)[i],
                    tool_registry.tools_view(),
                )
                &&& (forall|j: int|
                    0 <= j < i ==> call_accepted(
                        response_tool_calls(*response)[j],
                        tool_registry.tools_view(),
                    ))
                &&& error_reflects_call(e, response_tool_calls(*response)[i], tool_registry.tools_view())
            },
{
    let ghost regv = tool_registry.tools_view();
    let ghost calls_spec = response_tool_calls(*response);
    let mut validated_calls: Vec<ValidatedToolCall> = Vec::new();
    if response.choices.len() > 0 {
        let choice = &response.choices[0];
        let fr_is_tool_calls = match &choice.finish_reason {
            Some(fr) => str_eq(fr.as_str(), "tool_calls"),
            None => false,
        };
        if fr_is_tool_calls {
            if let Some(tool_calls) = &choice.message.tool_calls {
                proof {
                    assert(calls_spec == tool_calls@);
                }
                let mut idx: usize = 0;
                while idx < tool_calls.len()
                    invariant
                        calls_spec == tool_calls@,
                        calls_spec == response_tool_calls(*response),
                        regv == tool_registry.tools_view(),
                        idx <= calls_spec.len(),
                        validated_calls@.len() == idx,
                        forall|j: int|
                            0 <= j < idx ==> call_accepted(#[trigger] calls_spec[j], regv),
                        forall|j: int|
                            0 <= j < idx ==> {
                                &&& (#[trigger] validated_calls@[j]).id@ == calls_spec[j].id@
                                &&& validated_calls@[j].name@ == calls_spec[j].function.name@
                                &&& validated_calls@[j].arguments@
                                    == calls_spec[j].function.arguments@
                            },
                    decreases calls_spec.len() - idx,
                {
                    match validate_tool_call(&tool_calls[idx], tool_registry) {
                        Ok(v) => {
                            proof {
                                assert(call_accepted(calls_spec[idx as int], regv));
                            }
                            validated_calls.push(v);
                        },
                        Err(e) => {
                            proof {
                                assert(!call_accepted(calls_spec[idx as int], regv));
                                assert(error_reflects_call(e, calls_spec[idx as int], regv));
                            }
                            return Err(e);
                        },
                    }
                    idx = idx + 1;
                }
            }
        }
    }
    Ok(validated_calls)
}

} // verus!

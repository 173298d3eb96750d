//! The agent loop controller: the bounded multi-round state machine
//! that decides, after each round against the remote endpoint, whether
//! to continue, stop, or fail.  The rounds themselves (network I/O and
//! tool side effects) happen in the caller; each round's observable
//! outcome is handed in as a plain value.

use vstd::prelude::*;

verus! {

use crate::context_manager::{hist_msgs, lemma_add_message_msgs, snip_sum, ContextManager};
use crate::execution::ToolExecutionEngine;
use crate::models::{Message, Role, ToolCall};
use crate::pipeline::{call_accepted, validate_tool_call};
use crate::tokenizer::token_count_ok;
use crate::text::{contains_seq, contains_str, lower_of, lowercase};
use crate::tool_result_format::{envelope_err, envelope_ok, format_tool_result};
use crate::tools::ToolHost;

/// The iteration cap of the agent loop.
pub const MAX_ITERATIONS: usize = 5;

/// Where the loop stands.
#[derive(Clone, Copy, PartialEq, Eq, Debug, Structural)]
pub enum AgentStatus {
    /// The loop may run another round.
    Running,
    /// The model signalled completion.
    Completed,
    /// The loop stopped without a completion signal: no actionable
    /// response, or the iteration cap was reached.
    Stalled,
    /// A transport error, an empty window, or a failed tool call.
    Failed,
}

/// What one round against the remote endpoint observably produced.
#[derive(Clone, Copy, PartialEq, Eq, Debug, Structural)]
pub enum RoundOutcome {
    /// The window rendered to an empty message list.
    EmptyWindow,
    /// The transport or the remote endpoint failed.
    TransportError,
    /// The response carried no choices.
    NoChoices,
    /// An assistant turn: whether it carried non-empty text, whether
    /// that text contained a completion phrase, whether it carried
    /// tool calls, and whether any of those calls failed.
    Assistant {
        has_content: bool,
        completion_marker: bool,
        had_tool_calls: bool,
        tool_failed: bool,
    },
}

/// Drives the bounded loop: round count, cap, and status.
#[derive(Clone, Copy, PartialEq, Eq, Debug, Structural)]
pub struct AgentController {
    pub iteration: usize,
    pub max_iterations: usize,
    pub status: AgentStatus,
}

/// A controller whose round count respects its cap while running.
pub open spec fn controller_wf(c: AgentController) -> bool {
    &&& c.iteration <= c.max_iterations
    &&& c.status is Running ==> c.iteration < c.max_iterations
}

/// The fresh controller: running, at round zero (or already stalled
/// under a zero cap, which allows no round at all).
pub open spec fn spec_initial(max_iterations: usize) -> AgentController {
    AgentController {
        iteration: 0,
        max_iterations,
        status: if max_iterations == 0 {
            AgentStatus::Stalled
        } else {
            AgentStatus::Running
        },
    }
}

/// The transition relation of one round, as the design prescribes it:
/// a terminal state absorbs; failures and stalls are terminal; an
/// actionable assistant turn continues until the cap, at which the
/// loop stalls.
pub open spec fn spec_step(c: AgentController, outcome: RoundOutcome) -> AgentController {
    if !(c.status is Running) {
        c
    } else {
        match outcome {
            RoundOutcome::EmptyWindow => AgentController { status: AgentStatus::Failed, ..c },
            RoundOutcome::TransportError => AgentController { status: AgentStatus::Failed, ..c },
            RoundOutcome::NoChoices => AgentController { status: AgentStatus::Stalled, ..c },
            RoundOutcome::Assistant { has_content, completion_marker, had_tool_calls, tool_failed } => {
                if had_tool_calls {
                    if tool_failed {
                        AgentController { status: AgentStatus::Failed, ..c }
                    } else {
                        spec_advance(c)
                    }
                } else if has_content {
                    if completion_marker {
                        AgentController { status: AgentStatus::Completed, ..c }
                    } else {
                        spec_advance(c)
                    }
                } else {
                    AgentController { status: AgentStatus::Stalled, ..c }
                }
            },
        }
    }
}

/// One more round: stall when the cap is reached.
pub open spec fn spec_advance(c: AgentController) -> AgentController {
    AgentController {
        iteration: (c.iteration + 1) as usize,
        max_iterations: c.max_iterations,
        status: if c.iteration + 1 >= c.max_iterations {
            AgentStatus::Stalled
        } else {
            AgentStatus::Running
        },
    }
}

/// The controller after a whole sequence of rounds.
pub open spec fn run_rounds(c: AgentController, rounds: Seq<RoundOutcome>) -> AgentController
    decreases rounds.len(),
{
    if rounds.len() == 0 {
        c
    } else {
        run_rounds(spec_step(c, rounds[0]), rounds.skip(1))
    }
}

/// A round that keeps the loop going: a successful tool-call batch.
pub open spec fn is_tool_round(o: RoundOutcome) -> bool {
    o matches RoundOutcome::Assistant { had_tool_calls: true, tool_failed: false, .. }
}

/// Against an endpoint that answers every round with one successful
/// tool call, the loop stops in `Stalled` at exactly the iteration
/// cap — it can never run on.
pub proof fn lemma_agent_loop_stalls_at_cap(max_iterations: usize, rounds: Seq<RoundOutcome>)
    requires
        max_iterations >= 1,
        rounds.len() >= max_iterations,
        forall|i: int| 0 <= i < rounds.len() ==> is_tool_round(#[trigger] rounds[i]),
    ensures
        run_rounds(spec_initial(max_iterations), rounds).status == AgentStatus::Stalled,
        run_rounds(spec_initial(max_iterations), rounds).iteration == max_iterations,
{
    lemma_tool_rounds_stall(spec_initial(max_iterations), rounds);
}

/// Helper induction: from any well-formed running state, successful
/// tool rounds advance the count until the cap stalls the loop, and a
/// stalled loop stays stalled.
proof fn lemma_tool_rounds_stall(c: AgentController, rounds: Seq<RoundOutcome>)
    requires
        controller_wf(c),
        c.status is Running || (c.status is Stalled && c.iteration == c.max_iterations) || (
        c.status is Stalled && c.max_iterations == 0),
        rounds.len() + c.iteration >= c.max_iterations,
        forall|i: int| 0 <= i < rounds.len() ==> is_tool_round(#[trigger] rounds[i]),
    ensures
        run_rounds(c, rounds).status == AgentStatus::Stalled,
        run_rounds(c, rounds).iteration == c.max_iterations,
    decreases rounds.len(),
{
    if rounds.len() == 0 {
        assert(!(c.status is Running));
    } else {
        let c2 = spec_step(c, rounds[0]);
        lemma_tool_rounds_stall(c2, rounds.skip(1));
    }
}

impl AgentController {
    /// A fresh controller for a loop of at most `max_iterations`
    /// rounds.
    pub fn new(max_iterations: usize) -> (r: AgentController)
        ensures
            r == spec_initial(max_iterations),
            controller_wf(r),
    {
        AgentController {
            iteration: 0,
            max_iterations,
            status: if max_iterations == 0 {
                AgentStatus::Stalled
            } else {
                AgentStatus::Running
            },
        }
    }

    /// Whether another round may run.
    pub fn is_running(&self) -> (r: bool)
        ensures
            r == (self.status is Running),
    {
        matches!(self.status, AgentStatus::Running)
    }

    /// Feeds one round's outcome into the state machine.
    pub fn step(&mut self, outcome: RoundOutcome)
        requires
            controller_wf(*old(self)),
        ensures
            *final(self) == spec_step(*old(self), outcome),
            controller_wf(*final(self)),
    {
        if !matches!(self.status, AgentStatus::Running) {
            return ;
        }
        match outcome {
            RoundOutcome::EmptyWindow => {
                self.status = AgentStatus::Failed;
            },
            RoundOutcome::TransportError => {
                self.status = AgentStatus::Failed;
            },
            RoundOutcome::NoChoices => {
                self.status = AgentStatus::Stalled;
            },
            RoundOutcome::Assistant { has_content, completion_marker, had_tool_calls, tool_failed } => {
                if had_tool_calls {
                    if tool_failed {
                        self.status = AgentStatus::Failed;
                    } else {
                        self.advance();
                    }
                } else if has_content {
                    if completion_marker {
                        self.status = AgentStatus::Completed;
                    } else {
                        self.advance();
                    }
                } else {
                    self.status = AgentStatus::Stalled;
                }
            },
        }
    }

    /// Counts one finished round and stalls at the cap.
    fn advance(&mut self)
        requires
            controller_wf(*old(self)),
            old(self).status is Running,
        ensures
            *final(self) == spec_advance(*old(self)),
    {
        self.iteration = self.iteration + 1;
        if self.iteration >= self.max_iterations {
            self.status = AgentStatus::Stalled;
        } else {
            self.status = AgentStatus::Running;
        }
    }
}

/// Whether an assistant text signals task completion.  The trigger
/// phrases are matched case-insensitively as substrings — a heuristic,
/// not a structured signal, and a known design weakness of the
/// protocol this loop speaks.
pub fn has_completion_marker(text: &str) -> (r: bool)
    ensures
        r == (contains_seq(lower_of(text@), "task complete"@) || contains_seq(
            lower_of(text@),
            "task finished"@,
        )),
{
    let lowered = lowercase(text);
    contains_str(lowered.as_str(), "task complete") || contains_str(
        lowered.as_str(),
        "task finished",
    )
}

/// The system instruction that seeds the window for an agentic task.
pub fn initial_task_prompt(task_description: &str) -> (r: String)
    ensures
        r@ == "You are an AI assistant tasked with completing the following objective: '"@
            + task_description@
            + "'. Break down the task into steps and use the available tools to execute those steps. Respond with the next single tool call required, or indicate if the task is complete."@,
{
    let mut s = String::from_str(
        "You are an AI assistant tasked with completing the following objective: '",
    );
    s.append(task_description);
    s.append(
        "'. Break down the task into steps and use the available tools to execute those steps. Respond with the next single tool call required, or indicate if the task is complete.",
    );
    s
}

/// Builds the assistant message a finished stream assembles to: empty
/// accumulations become absent fields.
pub fn assemble_assistant_message(content: String, tool_calls: Vec<ToolCall>) -> (r: Message)
    ensures
        r.role == Role::Assistant,
        content@.len() == 0 ==> r.content is None,
        content@.len() > 0 ==> (r.content matches Some(c) && c@ == content@),
        tool_calls@.len() == 0 ==> r.tool_calls is None,
        tool_calls@.len() > 0 ==> (r.tool_calls matches Some(tc) && tc@ == tool_calls@),
        r.tool_call_id is None,
{
    let has_content = !content.as_str().is_empty();
    let has_calls = tool_calls.len() > 0;
    Message {
        role: Role::Assistant,
        content: if has_content {
            Some(content)
        } else {
            None
        },
        tool_calls: if has_calls {
            Some(tool_calls)
        } else {
            None
        },
        tool_call_id: None,
    }
}

/// Accumulates one streamed assistant turn: content pieces in arrival
/// order, and the tool calls the deltas carried.
pub struct ChunkAssembler {
    content: String,
    tool_calls: Vec<ToolCall>,
}

impl ChunkAssembler {
    /// The content accumulated so far.
    pub closed spec fn content_view(&self) -> Seq<char> {
        self.content@
    }

    /// The tool calls accumulated so far.
    pub closed spec fn calls_view(&self) -> Seq<ToolCall> {
        self.tool_calls@
    }

    /// An empty accumulation.
    pub fn new() -> (r: ChunkAssembler)
        ensures
            r.content_view().len() == 0,
            r.calls_view().len() == 0,
    {
        ChunkAssembler { content: String::new(), tool_calls: Vec::new() }
    }

    /// Appends one streamed content piece.
    pub fn absorb_content(&mut self, piece: &str)
        ensures
            final(self).content_view() == old(self).content_view() + piece@,
            final(self).calls_view() == old(self).calls_view(),
    {
        self.content.append(piece);
    }

    /// Records one streamed tool call.
    pub fn absorb_tool_call(&mut self, call: ToolCall)
        ensures
            final(self).calls_view() == old(self).calls_view().push(call),
            final(self).content_view() == old(self).content_view(),
    {
        self.tool_calls.push(call);
    }

    /// A copy of the accumulated tool calls, for execution.
    pub fn tool_calls_copy(&self) -> (r: Vec<ToolCall>)
        ensures
            r@ == self.calls_view(),
    {
        crate::models::clone_tool_calls(&self.tool_calls)
    }

    /// The assembled assistant message: empty accumulations become
    /// absent fields.
    pub fn into_message(self) -> (r: Message)
        ensures
            r.role == Role::Assistant,
            self.content_view().len() == 0 ==> r.content is None,
            self.content_view().len() > 0 ==> (r.content matches Some(c) && c@
                == self.content_view()),
            self.calls_view().len() == 0 ==> r.tool_calls is None,
            self.calls_view().len() > 0 ==> (r.tool_calls matches Some(tc) && tc@
                == self.calls_view()),
            r.tool_call_id is None,
    {
        assemble_assistant_message(self.content, self.tool_calls)
    }
}

/// A message carrying one tool result back to the model.
pub open spec fn is_tool_reply(m: Message, call_id: Seq<char>) -> bool {
    &&& m.role == Role::Tool
    &&& m.content is Some
    &&& m.tool_calls is None
    &&& m.tool_call_id matches Some(id) && id@ == call_id
}

/// A reply's content records its call's outcome: the success
/// envelope of some result, or the failure envelope of some message,
/// always naming the call's own tool.
pub open spec fn reply_content_for(c: ToolCall, content: Seq<char>, ok: bool) -> bool {
    if ok {
        exists|v: Seq<char>| content == envelope_ok(c.function.name@, v)
    } else {
        exists|m: Seq<char>| content == envelope_err(c.function.name@, m)
    }
}

/// Executes a batch of model-requested tool calls strictly in request
/// order: each call runs through the pipeline's validation stages,
/// then (when the policy gates it) the host's confirmation, then the
/// engine; each outcome is appended as one `Tool`-role reply carrying
/// the uniform envelope, in request order, and the batch reports
/// whether any call failed.  The batch is never abandoned midway; it
/// stops early only when the window itself could not record a reply
/// (a tokenizer failure), which the error reports.
pub fn run_tool_batch<H: ToolHost>(
    window: &mut ContextManager,
    engine: &ToolExecutionEngine,
    calls: &Vec<ToolCall>,
    host: &mut H,
) -> (r: Result<bool, String>)
    requires
        old(window).wf(),
    ensures
        final(window).wf(),
        final(window).snips() == old(window).snips(),
        final(window).max() == old(window).max(),
        exists|msgs: Seq<Message>, oks: Seq<bool>, k: int|
            #![trigger (hist_msgs(old(window).hist()) + msgs).skip(k), oks.len()]
            {
                &&& msgs.len() == oks.len()
                &&& msgs.len() <= calls@.len()
                &&& (r is Ok ==> msgs.len() == calls@.len())
                &&& (r matches Ok(failed) ==> (failed == exists|i: int|
                    0 <= i < oks.len() && !(#[trigger] oks[i])))
                &&& (forall|i: int|
                    0 <= i < msgs.len() ==> is_tool_reply(#[trigger] msgs[i], calls@[i].id@))
                &&& (forall|i: int|
                    0 <= i < msgs.len() ==> reply_content_for(
                        calls@[i],
                        (#[trigger] msgs[i]).content->0@,
                        oks[i],
                    ))
                &&& (forall|i: int|
                    0 <= i < oks.len() ==> (!call_accepted(calls@[i], engine.reg()) ==> !(
                    #[trigger] oks[i])))
                &&& (r is Err ==> msgs.len() < calls@.len() && exists|c: Seq<char>, b: bool|
                    reply_content_for(calls@[msgs.len() as int], c, b) && !token_count_ok(c))
                &&& 0 <= k <= old(window).hist().len() + msgs.len()
                &&& hist_msgs(final(window).hist()) == (hist_msgs(old(window).hist())
                    + msgs).skip(k)
            },
        (forall|i: int|
            0 <= i < calls@.len() ==> !call_accepted(#[trigger] calls@[i], engine.reg()))
            ==> *final(host) == *old(host),
{
    let ghost base = hist_msgs(old(window).hist());
    let ghost mut msgs: Seq<Message> = Seq::empty();
    let ghost mut oks: Seq<bool> = Seq::empty();
    let ghost mut k: int = 0;
    let mut failed = false;
    let mut idx: usize = 0;
    proof {
        assert((base + msgs).skip(0) =~= base);
        assert(hist_msgs(window.hist()) == (base + msgs).skip(k));
    }
    while idx < calls.len()
        invariant
            window.wf(),
            window.snips() == old(window).snips(),
            window.max() == old(window).max(),
            base == hist_msgs(old(window).hist()),
            idx <= calls@.len(),
            msgs.len() == idx,
            oks.len() == idx,
            failed == exists|i: int| 0 <= i < oks.len() && !(#[trigger] oks[i]),
            forall|i: int| 0 <= i < msgs.len() ==> is_tool_reply(#[trigger] msgs[i], calls@[i].id@),
            forall|i: int|
                0 <= i < msgs.len() ==> reply_content_for(
                    calls@[i],
                    (#[trigger] msgs[i]).content->0@,
                    oks[i],
                ),
            forall|i: int|
                0 <= i < oks.len() ==> (!call_accepted(calls@[i], engine.reg()) ==> !(
                #[trigger] oks[i])),
            0 <= k <= base.len() + idx,
            hist_msgs(window.hist()) == (base + msgs).skip(k),
            (forall|i: int|
                0 <= i < calls@.len() ==> !call_accepted(#[trigger] calls@[i], engine.reg()))
                ==> *host == *old(host),
        decreases calls@.len() - idx,
    {
        let call = &calls[idx];
        let tool_name = &call.function.name;
        let mut ok = false;
        let content = match validate_tool_call(call, engine.registry()) {
            Ok(_validated) => {
                let confirmed = if engine.needs_confirmation(tool_name.as_str()) {
                    host.confirm_execution(tool_name.as_str(), call.function.arguments.as_str())
                } else {
                    true
                };
                let outcome = engine.execute_tool_call(
                    host,
                    tool_name.as_str(),
                    call.function.arguments.as_str(),
                    confirmed,
                );
                ok = outcome.1;
                outcome.0
            },
            Err(e) => {
                let text = e.message();
                format_tool_result(tool_name.as_str(), "", Some(text.as_str()))
            },
        };
        if !ok {
            failed = true;
        }
        proof {
            assert(reply_content_for(calls@[idx as int], content@, ok));
        }
        let reply = Message {
            role: Role::Tool,
            content: Some(content),
            tool_calls: None,
            tool_call_id: Some(call.id.clone()),
        };
        let ghost reply_spec = reply;
        let ghost pre_pairs = window.hist();
        match window.add_message(reply) {
            Ok(_) => {},
            Err(e) => {
                proof {
                    // The window rejected the reply: its envelope text
                    // could not be costed.
                    assert(!token_count_ok(reply_spec.content->0@));
                    assert(reply_content_for(calls@[idx as int], reply_spec.content->0@, ok));
                }
                return Err(e);
            },
        }
        proof {
            assert(is_tool_reply(reply_spec, calls@[idx as int].id@));
            // Compose the eviction suffix of this append with the
            // suffix accumulated so far.
            lemma_add_message_msgs(
                pre_pairs,
                reply_spec,
                old(window).max() - snip_sum(old(window).snips()),
                window.hist(),
            );
            let k2 = choose|k2: int|
                0 <= k2 <= pre_pairs.len() + 1 && hist_msgs(window.hist()) == #[trigger] (
                hist_msgs(pre_pairs) + seq![reply_spec]).skip(k2);
            let grown = msgs.push(reply_spec);
            assert((base + msgs).skip(k) + seq![reply_spec] =~= (base + grown).skip(k));
            assert(((base + grown).skip(k)).skip(k2) =~= (base + grown).skip(k + k2));
            msgs = grown;
            let prev_oks = oks;
            oks = oks.push(ok);
            k = k + k2;
            assert(failed == exists|i: int| 0 <= i < oks.len() && !(#[trigger] oks[i])) by {
                if ok {
                    if failed {
                        let w = choose|i: int| 0 <= i < prev_oks.len() && !(#[trigger] prev_oks[i]);
                        assert(!oks[w]);
                    } else {
                        assert forall|i: int| 0 <= i < oks.len() implies #[trigger] oks[i] by {
                            if i < prev_oks.len() {
                                assert(oks[i] == prev_oks[i]);
                            } else {
                                assert(oks[i] == ok);
                            }
                        }
                    }
                } else {
                    assert(!oks[oks.len() - 1]);
                }
            }
        }
        idx = idx + 1;
    }
    Ok(failed)
}

} // verus!

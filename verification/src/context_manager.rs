//! The conversation window: ordered history plus context snippets, a
//! running token total, and deterministic eviction against a fixed
//! budget.
//!
//! Invariant (kept by every mutating call): the running total equals
//! the exact sum of the held items' costs and never exceeds the
//! budget.  Eviction removes the single oldest item at a time, history
//! before snippets, so the surviving items are always a suffix-biased
//! subset of what was added.

use vstd::prelude::*;

verus! {

use crate::config::Config;
use crate::models::{msg_eqv, Message, Role};
use crate::tokenizer::{token_cost, token_count_ok, Tokenizer};

/// The token budget a window is created with.
pub const MAX_CONTEXT_TOKENS: usize = 4000;

/// Reference material injected into the prompt, distinct from
/// conversational turns; always rendered as a `System` message.
#[derive(Debug)]
pub struct ContextSnippet {
    pub source: String,
    pub content: String,
    pub token_count: usize,
}

/// The sum of the stored costs of a history sequence.
pub open spec fn hist_sum(h: Seq<(Message, usize)>) -> int
    decreases h.len(),
{
    if h.len() == 0 {
        0
    } else {
        h[0].1 + hist_sum(h.skip(1))
    }
}

/// The sum of the stored costs of a snippet sequence.
pub open spec fn snip_sum(s: Seq<ContextSnippet>) -> int
    decreases s.len(),
{
    if s.len() == 0 {
        0
    } else {
        s[0].token_count + snip_sum(s.skip(1))
    }
}

/// The text a snippet renders to when sent to the remote endpoint.
pub open spec fn snippet_text(source: Seq<char>, content: Seq<char>) -> Seq<char> {
    "Content from "@ + source + ":\n```\n"@ + content + "\n```"@
}

/// The token cost of a message: the cost of its content, or zero when
/// it has none.
pub open spec fn msg_cost(m: Message) -> nat {
    if m.content is Some {
        token_cost(m.content->0@)
    } else {
        0
    }
}

pub proof fn lemma_hist_sum_nonneg(h: Seq<(Message, usize)>)
    ensures
        hist_sum(h) >= 0,
    decreases h.len(),
{
    if h.len() > 0 {
        lemma_hist_sum_nonneg(h.skip(1));
    }
}

pub proof fn lemma_snip_sum_nonneg(s: Seq<ContextSnippet>)
    ensures
        snip_sum(s) >= 0,
    decreases s.len(),
{
    if s.len() > 0 {
        lemma_snip_sum_nonneg(s.skip(1));
    }
}

/// The cost of a history splits at any index.
pub proof fn lemma_hist_sum_split(h: Seq<(Message, usize)>, i: int)
    requires
        0 <= i <= h.len(),
    ensures
        hist_sum(h) == hist_sum(h.take(i)) + hist_sum(h.skip(i)),
    decreases i,
{
    if i == 0 {
        assert(h.take(0) =~= Seq::<(Message, usize)>::empty());
        assert(h.skip(0) =~= h);
    } else {
        lemma_hist_sum_split(h.skip(1), i - 1);
        assert(h.take(i).skip(1) =~= h.skip(1).take(i - 1));
        assert(h.skip(i) =~= h.skip(1).skip(i - 1));
        assert(hist_sum(h.take(i)) == h[0].1 + hist_sum(h.skip(1).take(i - 1)));
    }
}

/// The cost of a snippet sequence splits at any index.
pub proof fn lemma_snip_sum_split(s: Seq<ContextSnippet>, i: int)
    requires
        0 <= i <= s.len(),
    ensures
        snip_sum(s) == snip_sum(s.take(i)) + snip_sum(s.skip(i)),
    decreases i,
{
    if i == 0 {
        assert(s.take(0) =~= Seq::<ContextSnippet>::empty());
        assert(s.skip(0) =~= s);
    } else {
        lemma_snip_sum_split(s.skip(1), i - 1);
        assert(s.take(i).skip(1) =~= s.skip(1).take(i - 1));
        assert(s.skip(i) =~= s.skip(1).skip(i - 1));
        assert(snip_sum(s.take(i)) == s[0].token_count + snip_sum(s.skip(1).take(i - 1)));
    }
}

/// Appending one entry adds its cost.
pub proof fn lemma_hist_sum_push(h: Seq<(Message, usize)>, e: (Message, usize))
    ensures
        hist_sum(h.push(e)) == hist_sum(h) + e.1,
{
    lemma_hist_sum_split(h.push(e), h.len() as int);
    assert(h.push(e).take(h.len() as int) =~= h);
    let tail = h.push(e).skip(h.len() as int);
    assert(tail.len() == 1 && tail[0] == e);
    assert(tail.skip(1) =~= Seq::<(Message, usize)>::empty());
    assert(hist_sum(Seq::<(Message, usize)>::empty()) == 0);
    assert(hist_sum(tail) == e.1);
}

/// Appending one snippet adds its cost.
pub proof fn lemma_snip_sum_push(s: Seq<ContextSnippet>, e: ContextSnippet)
    ensures
        snip_sum(s.push(e)) == snip_sum(s) + e.token_count,
{
    lemma_snip_sum_split(s.push(e), s.len() as int);
    assert(s.push(e).take(s.len() as int) =~= s);
    let tail = s.push(e).skip(s.len() as int);
    assert(tail.len() == 1 && tail[0] == e);
    assert(tail.skip(1) =~= Seq::<ContextSnippet>::empty());
    assert(snip_sum(Seq::<ContextSnippet>::empty()) == 0);
    assert(snip_sum(tail) == e.token_count);
}

/// What `add_message` leaves of the history: the old history plus the
/// new entry, with exactly as many oldest entries evicted as the
/// budget (what remains of the window's budget beside the snippets)
/// demanded, and not one more.
pub open spec fn history_after_add(
    old_h: Seq<(Message, usize)>,
    m: Message,
    budget: int,
    new_h: Seq<(Message, usize)>,
) -> bool {
    exists|entry: (Message, usize), k: int|
        {
            &&& entry.0 == m
            &&& entry.1 as nat == msg_cost(m)
            &&& 0 <= k <= old_h.len() + 1
            &&& new_h == #[trigger] old_h.push(entry).skip(k)
            &&& hist_sum(new_h) <= budget
            &&& k > 0 ==> hist_sum(old_h.push(entry).skip(k - 1)) > budget
        }
}

/// The messages of a history, without their stored costs.
pub open spec fn hist_msgs(h: Seq<(Message, usize)>) -> Seq<Message> {
    Seq::new(h.len(), |i: int| h[i].0)
}

/// An appended-then-evicted history, projected to messages, is a
/// suffix of the old messages plus the new one.
pub proof fn lemma_add_message_msgs(
    old_h: Seq<(Message, usize)>,
    m: Message,
    budget: int,
    new_h: Seq<(Message, usize)>,
)
    requires
        history_after_add(old_h, m, budget, new_h),
    ensures
        exists|k2: int|
            0 <= k2 <= old_h.len() + 1 && hist_msgs(new_h) == #[trigger] (hist_msgs(old_h)
                + seq![m]).skip(k2),
{
    let (entry, k) = choose|entry: (Message, usize), k: int|
        {
            &&& entry.0 == m
            &&& entry.1 as nat == msg_cost(m)
            &&& 0 <= k <= old_h.len() + 1
            &&& new_h == #[trigger] old_h.push(entry).skip(k)
            &&& hist_sum(new_h) <= budget
            &&& k > 0 ==> hist_sum(old_h.push(entry).skip(k - 1)) > budget
        };
    assert(hist_msgs(new_h) =~= (hist_msgs(old_h) + seq![m]).skip(k));
}

/// Eviction is suffix-biased: after an append, the surviving history
/// is a contiguous suffix of the old history plus the new entry, so
/// the most recently added entry is never evicted before an older
/// one — if anything survives, the newest entry does, and every
/// survivor but the newest stood in the old history, in order.
pub proof fn lemma_eviction_is_suffix_biased(
    old_h: Seq<(Message, usize)>,
    m: Message,
    budget: int,
    new_h: Seq<(Message, usize)>,
)
    requires
        history_after_add(old_h, m, budget, new_h),
    ensures
        new_h.len() <= old_h.len() + 1,
        new_h.len() > 0 ==> new_h[new_h.len() - 1].0 == m,
        forall|i: int|
            0 <= i < new_h.len() - 1 ==> #[trigger] new_h[i] == old_h[old_h.len() - (new_h.len()
                - 1) + i],
{
    let (entry, k) = choose|entry: (Message, usize), k: int|
        {
            &&& entry.0 == m
            &&& entry.1 as nat == msg_cost(m)
            &&& 0 <= k <= old_h.len() + 1
            &&& new_h == #[trigger] old_h.push(entry).skip(k)
            &&& hist_sum(new_h) <= budget
            &&& k > 0 ==> hist_sum(old_h.push(entry).skip(k - 1)) > budget
        };
    if new_h.len() > 0 {
        assert(new_h[new_h.len() - 1] == old_h.push(entry)[old_h.len() as int]);
    }
}

/// The round-trip ordering of a tool turn: when the budget evicts
/// nothing (the appends grew the history by exactly two), appending
/// the assistant's tool-call message and then the tool's reply leaves
/// them as the last two history entries, in that order — so the next
/// rendered message list ends with exactly those two.  With a budget
/// too small to hold both, eviction removes the assistant message
/// first and the ordering claim has no subject.
pub proof fn lemma_round_trip_order(
    h0: Seq<(Message, usize)>,
    assistant: Message,
    b1: int,
    h1: Seq<(Message, usize)>,
    reply: Message,
    b2: int,
    h2: Seq<(Message, usize)>,
)
    requires
        history_after_add(h0, assistant, b1, h1),
        history_after_add(h1, reply, b2, h2),
        h2.len() == h0.len() + 2,
    ensures
        h2[h2.len() - 2].0 == assistant,
        h2[h2.len() - 1].0 == reply,
{
    lemma_eviction_is_suffix_biased(h0, assistant, b1, h1);
    lemma_eviction_is_suffix_biased(h1, reply, b2, h2);
    assert(h1.len() == h0.len() + 1);
    assert(h2[h2.len() - 2] == h1[h1.len() - 1]);
}

/// What `add_snippet` leaves of the window: the new snippet appended,
/// oldest history entries evicted first, then oldest snippets, each
/// only as far as the budget demanded; the new snippet itself goes
/// last.
pub open spec fn state_after_add_snippet(
    old_h: Seq<(Message, usize)>,
    old_s: Seq<ContextSnippet>,
    source: Seq<char>,
    content: Seq<char>,
    max: int,
    new_h: Seq<(Message, usize)>,
    new_s: Seq<ContextSnippet>,
) -> bool {
    exists|ns: ContextSnippet, j: int|
        {
            &&& ns.source@ == source
            &&& ns.content@ == content
            &&& ns.token_count as nat == token_cost(snippet_text(source, content))
            &&& 0 <= j <= old_s.len() + 1
            &&& new_s == #[trigger] old_s.push(ns).skip(j)
            &&& exists|k: int|
                {
                    &&& 0 <= k <= old_h.len()
                    &&& new_h == #[trigger] old_h.skip(k)
                    &&& j > 0 ==> k == old_h.len()
                    &&& (k > 0 && j == 0) ==> hist_sum(old_h.skip(k - 1)) + snip_sum(
                        old_s.push(ns),
                    ) > max
                }
            &&& j > 0 ==> snip_sum(old_s.push(ns).skip(j - 1)) > max
        }
}

/// A message list as rendered for one snippet.
pub open spec fn is_snippet_message(m: Message, s: ContextSnippet) -> bool {
    &&& m.role == Role::System
    &&& m.content is Some
    &&& m.content->0@ == snippet_text(s.source@, s.content@)
    &&& m.tool_calls is None
    &&& m.tool_call_id is None
}

/// Holds ordered history and snippets, tracks the exact token total,
/// and evicts oldest entries to respect the budget.
pub struct ContextManager {
    config: Config,
    history: Vec<(Message, usize)>,
    context_snippets: Vec<ContextSnippet>,
    tokenizer: Tokenizer,
    total_token_count: usize,
    max_tokens: usize,
}

impl ContextManager {
    /// The held history, oldest first, each entry with its stored cost.
    pub closed spec fn hist(&self) -> Seq<(Message, usize)> {
        self.history@
    }

    /// The held snippets, oldest first.
    pub closed spec fn snips(&self) -> Seq<ContextSnippet> {
        self.context_snippets@
    }

    /// The running token total.
    pub closed spec fn total(&self) -> int {
        self.total_token_count as int
    }

    /// The fixed budget.
    pub closed spec fn max(&self) -> int {
        self.max_tokens as int
    }

    /// The configuration the window was created with.
    pub closed spec fn cfg(&self) -> Config {
        self.config
    }

    /// The token invariant: the total is the exact sum of the held
    /// items' costs, it respects the budget, and every stored cost is
    /// the cost of its item.
    pub open spec fn wf(&self) -> bool {
        &&& self.total() == hist_sum(self.hist()) + snip_sum(self.snips())
        &&& self.total() <= self.max()
        &&& forall|i: int|
            0 <= i < self.hist().len() ==> (#[trigger] self.hist()[i]).1 as nat == msg_cost(
                self.hist()[i].0,
            )
        &&& forall|i: int|
            0 <= i < self.snips().len() ==> (#[trigger] self.snips()[i]).token_count as nat
                == token_cost(
                snippet_text(self.snips()[i].source@, self.snips()[i].content@),
            )
    }

    /// Creates a window with the standard budget.
    pub fn new(config: Config) -> (r: Result<ContextManager, String>)
        ensures
            r is Ok,
            r matches Ok(cm) ==> {
                &&& cm.wf()
                &&& cm.hist().len() == 0
                &&& cm.snips().len() == 0
                &&& cm.total() == 0
                &&& cm.max() == MAX_CONTEXT_TOKENS
                &&& cm.cfg() == config
            },
    {
        Self::with_token_limit(config, MAX_CONTEXT_TOKENS)
    }

    /// Creates a window with a caller-chosen budget.
    pub fn with_token_limit(config: Config, max_tokens: usize) -> (r: Result<
        ContextManager,
        String,
    >)
        ensures
            r is Ok,
            r matches Ok(cm) ==> {
                &&& cm.wf()
                &&& cm.hist().len() == 0
                &&& cm.snips().len() == 0
                &&& cm.total() == 0
                &&& cm.max() == max_tokens
                &&& cm.cfg() == config
            },
    {
        match Tokenizer::load() {
            Ok(tokenizer) => Ok(
                ContextManager {
                    config,
                    history: Vec::new(),
                    context_snippets: Vec::new(),
                    tokenizer,
                    total_token_count: 0,
                    max_tokens,
                },
            ),
            Err(e) => Err(e),
        }
    }

    /// Counts the tokens of a text with the window's tokenizer; the
    /// encoder can give up on pathological inputs, and then so does
    /// the caller.
    pub fn count_tokens(&self, text: &str) -> (r: Result<usize, String>)
        ensures
            r is Ok <==> token_count_ok(text@),
            r matches Ok(c) ==> c as nat == token_cost(text@),
    {
        self.tokenizer.count(text)
    }

    /// Renders one snippet as prompt text.
    pub fn format_snippet_content(source: &str, content: &str) -> (r: String)
        ensures
            r@ == snippet_text(source@, content@),
    {
        let mut s = String::from_str("Content from ");
        s.append(source);
        s.append(":\n```\n");
        s.append(content);
        s.append("\n```");
        s
    }

    /// Appends a message, costed by its content, evicting the oldest
    /// history entries first if the budget demands it.  Snippets are
    /// never touched: the new message itself is evicted before them.
    /// Fails only when the tokenizer could not cost the content, and
    /// then changes nothing.
    pub fn add_message(&mut self, message: Message) -> (r: Result<(), String>)
        requires
            old(self).wf(),
        ensures
            final(self).wf(),
            final(self).max() == old(self).max(),
            final(self).cfg() == old(self).cfg(),
            final(self).snips() == old(self).snips(),
            r is Ok <==> (message.content is None || token_count_ok(message.content->0@)),
            r is Err ==> final(self).hist() == old(self).hist() && final(self).total() == old(
                self,
            ).total(),
            r is Ok ==> history_after_add(
                old(self).hist(),
                message,
                old(self).max() - snip_sum(old(self).snips()),
                final(self).hist(),
            ),
    {
        let tokens: usize = match &message.content {
            Some(c) => match self.count_tokens(c.as_str()) {
                Ok(t) => t,
                Err(e) => {
                    return Err(e);
                },
            },
            None => 0,
        };
        let ghost entry = (message, tokens);
        let ghost all = old(self).hist().push(entry);
        let ghost mut k: int = 0;
        proof {
            assert(old(self).hist().skip(0) =~= old(self).hist());
        }
        while (tokens > self.max_tokens || self.total_token_count > self.max_tokens - tokens)
            && self.history.len() > 0
            invariant
                tokens as nat == msg_cost(message),
                entry == (message, tokens),
                all == old(self).hist().push(entry),
                0 <= k <= old(self).hist().len(),
                self.hist() == old(self).hist().skip(k),
                self.snips() == old(self).snips(),
                self.max() == old(self).max(),
                self.cfg() == old(self).cfg(),
                self.tokenizer == old(self).tokenizer,
                self.total() == hist_sum(self.hist()) + snip_sum(self.snips()),
                self.total() <= self.max(),
                forall|i: int|
                    0 <= i < self.hist().len() ==> (#[trigger] self.hist()[i]).1 as nat == msg_cost(
                        self.hist()[i].0,
                    ),
                k > 0 ==> hist_sum(all.skip(k - 1)) + snip_sum(old(self).snips()) > old(self).max(),
            decreases self.history.len(),
    {
            proof {
                // The current history with the new entry still exceeds the budget.
                assert(all.skip(k) =~= self.hist().push(entry));
                lemma_hist_sum_push(self.hist(), entry);
                lemma_hist_sum_nonneg(self.hist().skip(1));
                lemma_snip_sum_nonneg(self.snips());
            }
            let removed = self.history.remove(0);
            self.total_token_count = self.total_token_count - removed.1;
            proof {
                assert(self.hist() =~= old(self).hist().skip(k + 1));
                k = k + 1;
            }
        }
        if tokens <= self.max_tokens && self.total_token_count <= self.max_tokens - tokens {
            proof {
                lemma_hist_sum_push(self.hist(), entry);
                assert(self.hist().push(entry) =~= all.skip(k));
            }
            self.history.push((message, tokens));
            self.total_token_count = self.total_token_count + tokens;
            proof {
                assert(self.hist() == all.skip(k));
                assert(history_after_add(
                    old(self).hist(),
                    message,
                    old(self).max() - snip_sum(old(self).snips()),
                    self.hist(),
                ));
            }
        } else {
            // Even alone the new message exceeds the budget: it is
            // evicted in turn, and the history is empty.
            proof {
                assert(self.history.len() == 0);
                assert(k == old(self).hist().len());
                assert(all.skip(k) =~= self.hist().push(entry));
                lemma_hist_sum_push(self.hist(), entry);
                lemma_snip_sum_nonneg(self.snips());
                assert(all.skip(k + 1) =~= Seq::<(Message, usize)>::empty());
                assert(hist_sum(all.skip(k)) + snip_sum(old(self).snips()) > old(self).max());
                assert(self.hist() == all.skip(k + 1));
                assert(history_after_add(
                    old(self).hist(),
                    message,
                    old(self).max() - snip_sum(old(self).snips()),
                    self.hist(),
                )) by {
                    let k1 = k + 1;
                    assert(0 <= k1 <= old(self).hist().len() + 1);
                    assert(self.hist() == all.skip(k1));
                    assert(hist_sum(self.hist()) <= old(self).max() - snip_sum(
                        old(self).snips(),
                    ));
                }
            }
        }
        Ok(())
    }

    /// Appends a snippet, costed by its rendered text, evicting oldest
    /// history entries first and then oldest snippets if the budget
    /// demands it.  Fails only when the tokenizer could not cost the
    /// rendered text, and then changes nothing.
    pub fn add_snippet(&mut self, source: String, content: String) -> (r: Result<(), String>)
        requires
            old(self).wf(),
        ensures
            final(self).wf(),
            final(self).max() == old(self).max(),
            final(self).cfg() == old(self).cfg(),
            r is Ok <==> token_count_ok(snippet_text(source@, content@)),
            r is Err ==> final(self).hist() == old(self).hist() && final(self).snips() == old(
                self,
            ).snips() && final(self).total() == old(self).total(),
            r is Ok ==> state_after_add_snippet(
                old(self).hist(),
                old(self).snips(),
                source@,
                content@,
                old(self).max(),
                final(self).hist(),
                final(self).snips(),
            ),
    {
        let formatted = Self::format_snippet_content(source.as_str(), content.as_str());
        let tokens = match self.count_tokens(formatted.as_str()) {
            Ok(t) => t,
            Err(e) => {
                return Err(e);
            },
        };
        let snippet = ContextSnippet { source, content, token_count: tokens };
        let ghost ns = snippet;
        let ghost all = old(self).snips().push(ns);
        let ghost mut k: int = 0;
        let ghost mut j: int = 0;
        proof {
            assert(old(self).hist().skip(0) =~= old(self).hist());
            assert(old(self).snips().skip(0) =~= old(self).snips());
        }
        while (tokens > self.max_tokens || self.total_token_count > self.max_tokens - tokens)
            && self.history.len() > 0
            invariant
                tokens == ns.token_count,
                ns.token_count as nat == token_cost(snippet_text(ns.source@, ns.content@)),
                all == old(self).snips().push(ns),
                0 <= k <= old(self).hist().len(),
                self.hist() == old(self).hist().skip(k),
                self.snips() == old(self).snips(),
                self.max() == old(self).max(),
                self.cfg() == old(self).cfg(),
                self.tokenizer == old(self).tokenizer,
                self.total() == hist_sum(self.hist()) + snip_sum(self.snips()),
                self.total() <= self.max(),
                forall|i: int|
                    0 <= i < self.hist().len() ==> (#[trigger] self.hist()[i]).1 as nat == msg_cost(
                        self.hist()[i].0,
                    ),
                forall|i: int|
                    0 <= i < self.snips().len() ==> (#[trigger] self.snips()[i]).token_count as nat
                        == token_cost(
                        snippet_text(self.snips()[i].source@, self.snips()[i].content@),
                    ),
                k > 0 ==> hist_sum(old(self).hist().skip(k - 1)) + snip_sum(all) > old(self).max(),
            decreases self.history.len(),
    {
            proof {
                lemma_snip_sum_push(self.snips(), ns);
                lemma_hist_sum_nonneg(self.hist().skip(1));
                lemma_snip_sum_nonneg(self.snips());
            }
            let removed = self.history.remove(0);
            self.total_token_count = self.total_token_count - removed.1;
            proof {
                assert(self.hist() =~= old(self).hist().skip(k + 1));
                k = k + 1;
            }
        }
        while (tokens > self.max_tokens || self.total_token_count > self.max_tokens - tokens)
            && self.context_snippets.len() > 0
            invariant
                tokens == ns.token_count,
                ns.token_count as nat == token_cost(snippet_text(ns.source@, ns.content@)),
                all == old(self).snips().push(ns),
                0 <= k <= old(self).hist().len(),
                0 <= j <= old(self).snips().len(),
                self.hist() == old(self).hist().skip(k),
                self.snips() == old(self).snips().skip(j),
                self.max() == old(self).max(),
                self.cfg() == old(self).cfg(),
                self.tokenizer == old(self).tokenizer,
                self.total() == hist_sum(self.hist()) + snip_sum(self.snips()),
                self.total() <= self.max(),
                j > 0 ==> self.hist().len() == 0 && k == old(self).hist().len(),
                tokens > self.max() - self.total() ==> self.hist().len() == 0 && k == old(
                    self,
                ).hist().len(),
                forall|i: int|
                    0 <= i < self.hist().len() ==> (#[trigger] self.hist()[i]).1 as nat == msg_cost(
                        self.hist()[i].0,
                    ),
                forall|i: int|
                    0 <= i < self.snips().len() ==> (#[trigger] self.snips()[i]).token_count as nat
                        == token_cost(
                        snippet_text(self.snips()[i].source@, self.snips()[i].content@),
                    ),
                k > 0 && j == 0 ==> hist_sum(old(self).hist().skip(k - 1)) + snip_sum(all) > old(
                    self,
                ).max(),
                j > 0 ==> snip_sum(all.skip(j - 1)) > old(self).max(),
            decreases self.context_snippets.len(),
    {
            proof {
                assert(all.skip(j) =~= self.snips().push(ns));
                lemma_snip_sum_push(self.snips(), ns);
                lemma_hist_sum_nonneg(self.hist());
                lemma_snip_sum_nonneg(self.snips().skip(1));
            }
            let removed = self.context_snippets.remove(0);
            self.total_token_count = self.total_token_count - removed.token_count;
            proof {
                assert(self.snips() =~= old(self).snips().skip(j + 1));
                j = j + 1;
            }
        }
        if tokens <= self.max_tokens && self.total_token_count <= self.max_tokens - tokens {
            proof {
                lemma_snip_sum_push(self.snips(), ns);
                assert(self.snips().push(ns) =~= all.skip(j));
            }
            self.context_snippets.push(snippet);
            self.total_token_count = self.total_token_count + tokens;
        } else {
            // The new snippet itself exceeds what is left of the
            // budget: it is evicted in turn.
            proof {
                assert(self.context_snippets.len() == 0);
                assert(j == old(self).snips().len());
                assert(all.skip(j) =~= self.snips().push(ns));
                lemma_snip_sum_push(self.snips(), ns);
                lemma_hist_sum_nonneg(self.hist());
                assert(snip_sum(all.skip(j)) > old(self).max() - hist_sum(self.hist()));
                assert(self.hist().len() == 0) by {
                    if self.hist().len() > 0 {
                        assert(tokens > self.max() - self.total());
                    }
                }
                assert(k == old(self).hist().len());
                assert(all.skip(j + 1) =~= Seq::<ContextSnippet>::empty());
                j = j + 1;
            }
        }
        proof {
            assert(self.snips() == all.skip(j));
            assert(self.hist() == old(self).hist().skip(k));
            assert(state_after_add_snippet(
                old(self).hist(),
                old(self).snips(),
                ns.source@,
                ns.content@,
                old(self).max(),
                self.hist(),
                self.snips(),
            ));
        }
        Ok(())
    }

    /// Drops the history and recomputes the total from the snippets
    /// alone, exactly.
    pub fn clear_history(&mut self)
        requires
            old(self).wf(),
        ensures
            final(self).wf(),
            final(self).hist().len() == 0,
            final(self).snips() == old(self).snips(),
            final(self).total() == snip_sum(old(self).snips()),
            final(self).max() == old(self).max(),
            final(self).cfg() == old(self).cfg(),
    {
        let mut total: usize = 0;
        let mut i: usize = 0;
        while i < self.context_snippets.len()
            invariant
                old(self) == self,
                old(self).wf(),
                i <= self.snips().len(),
                total as int == snip_sum(self.snips().take(i as int)),
            decreases self.snips().len() - i,
    {
            proof {
                lemma_snip_sum_split(self.snips(), i as int);
                lemma_snip_sum_split(self.snips().skip(i as int), 1);
                assert(self.snips().take(i + 1 as int) =~= self.snips().take(i as int).push(
                    self.snips()[i as int],
                ));
                lemma_snip_sum_push(self.snips().take(i as int), self.snips()[i as int]);
                lemma_snip_sum_nonneg(self.snips().skip(i as int).skip(1));
                lemma_snip_sum_nonneg(self.snips().take(i as int));
                lemma_hist_sum_nonneg(self.hist());
                assert(self.snips().skip(i as int).take(1) =~= seq![self.snips()[i as int]]);
                assert(snip_sum(seq![self.snips()[i as int]]) == self.snips()[i as int].token_count)
                    by {
                    assert(seq![self.snips()[i as int]].skip(1)
                        =~= Seq::<ContextSnippet>::empty());
                }
            }
            total = total + self.context_snippets[i].token_count;
            i = i + 1;
        }
        proof {
            assert(self.snips().take(self.snips().len() as int) =~= self.snips());
        }
        self.total_token_count = total;
        self.history.clear();
        proof {
            lemma_snip_sum_nonneg(self.snips());
            lemma_hist_sum_nonneg(old(self).hist());
        }
    }

    /// Drops the snippets and recomputes the total from the history
    /// alone, exactly.
    pub fn clear_snippets(&mut self)
        requires
            old(self).wf(),
        ensures
            final(self).wf(),
            final(self).snips().len() == 0,
            final(self).hist() == old(self).hist(),
            final(self).total() == hist_sum(old(self).hist()),
            final(self).max() == old(self).max(),
            final(self).cfg() == old(self).cfg(),
    {
        let mut total: usize = 0;
        let mut i: usize = 0;
        while i < self.history.len()
            invariant
                old(self) == self,
                old(self).wf(),
                i <= self.hist().len(),
                total as int == hist_sum(self.hist().take(i as int)),
            decreases self.hist().len() - i,
    {
            proof {
                lemma_hist_sum_split(self.hist(), i as int);
                lemma_hist_sum_split(self.hist().skip(i as int), 1);
                assert(self.hist().take(i + 1 as int) =~= self.hist().take(i as int).push(
                    self.hist()[i as int],
                ));
                lemma_hist_sum_push(self.hist().take(i as int), self.hist()[i as int]);
                lemma_hist_sum_nonneg(self.hist().skip(i as int).skip(1));
                lemma_hist_sum_nonneg(self.hist().take(i as int));
                lemma_snip_sum_nonneg(self.snips());
                assert(self.hist().skip(i as int).take(1) =~= seq![self.hist()[i as int]]);
                assert(hist_sum(seq![self.hist()[i as int]]) == self.hist()[i as int].1) by {
                    assert(seq![self.hist()[i as int]].skip(1)
                        =~= Seq::<(Message, usize)>::empty());
                }
            }
            total = total + self.history[i].1;
            i = i + 1;
        }
        proof {
            assert(self.hist().take(self.hist().len() as int) =~= self.hist());
        }
        self.total_token_count = total;
        self.context_snippets.clear();
        proof {
            lemma_hist_sum_nonneg(self.hist());
            lemma_snip_sum_nonneg(old(self).snips());
        }
    }

    /// Number of held history entries.
    pub fn history_len(&self) -> (r: usize)
        ensures
            r == self.hist().len(),
    {
        self.history.len()
    }

    /// Number of held snippets.
    pub fn snippets_len(&self) -> (r: usize)
        ensures
            r == self.snips().len(),
    {
        self.context_snippets.len()
    }

    /// The running token total.
    pub fn total_tokens(&self) -> (r: usize)
        ensures
            r as int == self.total(),
    {
        self.total_token_count
    }

    /// The budget.
    pub fn max_token_limit(&self) -> (r: usize)
        ensures
            r as int == self.max(),
    {
        self.max_tokens
    }

    /// A copy of the history message at `i`.
    pub fn history_message(&self, i: usize) -> (r: Message)
        requires
            i < self.hist().len(),
        ensures
            msg_eqv(r, self.hist()[i as int].0),
    {
        self.history[i].0.clone()
    }

    /// The stored cost of the history entry at `i`.
    pub fn history_cost(&self, i: usize) -> (r: usize)
        requires
            i < self.hist().len(),
        ensures
            r == self.hist()[i as int].1,
    {
        self.history[i].1
    }

    /// The snippet at `i`.
    pub fn snippet_at(&self, i: usize) -> (r: &ContextSnippet)
        requires
            i < self.snips().len(),
        ensures
            *r == self.snips()[i as int],
    {
        &self.context_snippets[i]
    }

    /// The configuration.
    pub fn config(&self) -> (r: &Config)
        ensures
            *r == self.cfg(),
    {
        &self.config
    }

    /// Builds the outgoing message list: snippets first (oldest to
    /// newest, each rendered as a `System` message), then history in
    /// chronological order.  Internally items are taken newest first
    /// against the budget, so the most recent content would be kept if
    /// the precomputed total ever disagreed with a fresh accounting;
    /// under the window invariant every held item fits, so the list
    /// carries them all.
    pub fn construct_api_messages(&self) -> (r: Result<Vec<Message>, String>)
        requires
            self.wf(),
        ensures
            r is Ok,
            r matches Ok(out) ==> {
                &&& out@.len() == self.snips().len() + self.hist().len()
                &&& forall|i: int|
                    0 <= i < self.snips().len() ==> is_snippet_message(
                        #[trigger] out@[i],
                        self.snips()[i],
                    )
                &&& forall|i: int|
                    0 <= i < self.hist().len() ==> msg_eqv(
                        #[trigger] out@[self.snips().len() + i],
                        self.hist()[i].0,
                    )
            },
    {
        let ghost snips = self.snips();
        let ghost hist = self.hist();
        let mut current: usize = 0;
        let mut snip_rev: Vec<Message> = Vec::new();
        let mut i: usize = self.context_snippets.len();
        proof {
            assert(snips.skip(snips.len() as int) =~= Seq::<ContextSnippet>::empty());
        }
        while i > 0
            invariant
                self.wf(),
                snips == self.snips(),
                hist == self.hist(),
                i <= snips.len(),
                current as int == snip_sum(snips.skip(i as int)),
                snip_rev@.len() == snips.len() - i,
                forall|t: int|
                    0 <= t < snip_rev@.len() ==> is_snippet_message(
                        #[trigger] snip_rev@[t],
                        snips[snips.len() - 1 - t],
                    ),
            decreases i,
        {
            i = i - 1;
            let sn = &self.context_snippets[i];
            let formatted = Self::format_snippet_content(sn.source.as_str(), sn.content.as_str());
            // By the window invariant the stored cost is exactly the
            // cost of the rendered text, so no fresh count is needed.
            let snippet_tokens = sn.token_count;
            proof {
                // The items from `i` on cost no more than the whole
                // window holds, so this one still fits.
                lemma_snip_sum_split(snips, i as int);
                lemma_snip_sum_split(snips.skip(i as int), 1);
                lemma_snip_sum_nonneg(snips.take(i as int));
                lemma_hist_sum_nonneg(hist);
                assert(snips.skip(i as int).skip(1) =~= snips.skip(i + 1 as int));
                assert(snips.skip(i as int).take(1) =~= seq![snips[i as int]]);
                assert(snip_sum(seq![snips[i as int]]) == snips[i as int].token_count) by {
                    assert(seq![snips[i as int]].skip(1) =~= Seq::<ContextSnippet>::empty());
                }
                assert(current + snippet_tokens <= self.max());
            }
            if current + snippet_tokens <= self.max_tokens {
                snip_rev.push(
                    Message {
                        role: Role::System,
                        content: Some(formatted),
                        tool_calls: None,
                        tool_call_id: None,
                    },
                );
                current = current + snippet_tokens;
            }
        }
        let ghost srv0 = snip_rev@;
        let mut api_messages = reversed_messages(snip_rev);
        let mut hist_rev: Vec<Message> = Vec::new();
        let mut j: usize = self.history.len();
        proof {
            assert(snips.skip(0) =~= snips);
            assert(hist.skip(hist.len() as int) =~= Seq::<(Message, usize)>::empty());
        }
        while j > 0
            invariant
                self.wf(),
                snips == self.snips(),
                hist == self.hist(),
                j <= hist.len(),
                current as int == snip_sum(snips) + hist_sum(hist.skip(j as int)),
                hist_rev@.len() == hist.len() - j,
                forall|t: int|
                    0 <= t < hist_rev@.len() ==> msg_eqv(
                        #[trigger] hist_rev@[t],
                        hist[hist.len() - 1 - t].0,
                    ),
            decreases j,
        {
            j = j - 1;
            let message_tokens = self.history[j].1;
            proof {
                lemma_hist_sum_split(hist, j as int);
                lemma_hist_sum_split(hist.skip(j as int), 1);
                lemma_hist_sum_nonneg(hist.take(j as int));
                lemma_snip_sum_nonneg(snips);
                assert(hist.skip(j as int).skip(1) =~= hist.skip(j + 1 as int));
                assert(hist.skip(j as int).take(1) =~= seq![hist[j as int]]);
                assert(hist_sum(seq![hist[j as int]]) == hist[j as int].1) by {
                    assert(seq![hist[j as int]].skip(1) =~= Seq::<(Message, usize)>::empty());
                }
                assert(current + message_tokens <= self.max());
            }
            if current + message_tokens <= self.max_tokens {
                hist_rev.push(self.history[j].0.clone());
                current = current + message_tokens;
            }
        }
        let ghost srv = api_messages@;
        let ghost hrv = hist_rev@;
        let mut hist_part = reversed_messages(hist_rev);
        let ghost hpv = hist_part@;
        api_messages.append(&mut hist_part);
        proof {
            assert(hist.skip(0) =~= hist);
            assert forall|ii: int| 0 <= ii < snips.len() implies is_snippet_message(
                #[trigger] api_messages@[ii],
                snips[ii],
            ) by {
                assert(api_messages@[ii] == srv[ii]);
                assert(srv[ii] == srv0[snips.len() - 1 - ii]);
                assert(is_snippet_message(srv0[snips.len() - 1 - ii], snips[ii]));
            }
            assert forall|ii: int| 0 <= ii < hist.len() implies msg_eqv(
                #[trigger] api_messages@[snips.len() + ii],
                hist[ii].0,
            ) by {
                assert(api_messages@[snips.len() + ii] == hpv[ii]);
                assert(hpv[ii] == hrv[hist.len() - 1 - ii]);
                assert(msg_eqv(hrv[hist.len() - 1 - ii], hist[ii].0));
            }
        }
        Ok(api_messages)
    }
}

/// Reverses a list of messages.
fn reversed_messages(v: Vec<Message>) -> (r: Vec<Message>)
    ensures
        r@.len() == v@.len(),
        forall|t: int| 0 <= t < v@.len() ==> r@[t] == v@[v@.len() - 1 - t],
{
    let ghost v0 = v@;
    let mut v = v;
    let mut r: Vec<Message> = Vec::new();
    proof {
        assert(v0.take(v0.len() as int) =~= v0);
    }
    while v.len() > 0
        invariant
            v@ == v0.take(v@.len() as int),
            r@.len() + v@.len() == v0.len(),
            forall|t: int| 0 <= t < r@.len() ==> r@[t] == v0[v0.len() - 1 - t],
        decreases v.len(),
    {
        let x = v.pop().unwrap();
        proof {
            assert(v0.take(v@.len() + 1 as int).subrange(0, v@.len() as int) =~= v0.take(
                v@.len() as int,
            ));
            assert(x == v0[v@.len() as int]);
        }
        r.push(x);
    }
    r
}

} // verus!

//! The decisions of the agent loop that runs a session's conversation through a
//! provider, as a state machine. The caller asks the provider when told to, hands
//! back the reply, runs the requested tools and hands back their results.
use crate::agent::context::{Message, MessageRole};
use crate::agent::executor::RunPhase;
use crate::clock::now;
use crate::llm::framework::LlmResponse;
use crate::tools::base::{ToolCall, ToolResult};
use vstd::prelude::*;

verus! {

/// What the caller does next.
#[derive(Debug)]
pub enum LoopStep {
    /// Send the messages, with the tool definitions, to the provider.
    AskModel,
    /// The loop is over; this is the final content.
    Finished(String),
}

/// Whether `m` answers the call `id` with `content`.
pub open spec fn answers_call(m: Message, id: Seq<char>, content: Seq<char>) -> bool {
    &&& m.role == MessageRole::Tool
    &&& m.content@ == content
    &&& m.tool_calls is None
    &&& m.tool_call_id matches Some(t) && t@ == id
}

/// The state of one run of the model/tool iteration.
#[derive(Debug)]
pub struct IterationLoop {
    pub messages: Vec<Message>,
    pub iteration: usize,
    pub max_iterations: usize,
    pub final_content: String,
    pub phase: RunPhase,
}

/// What [`IterationLoop::next_step`] does: `pre` becomes `post` and `step` is returned.
pub open spec fn loop_step_post(pre: IterationLoop, post: IterationLoop, step: LoopStep) -> bool {
    &&& post.messages == pre.messages
    &&& post.max_iterations == pre.max_iterations
    &&& post.final_content == pre.final_content
    &&& (pre.phase == RunPhase::Ready && pre.iteration < pre.max_iterations ==> {
            &&& post.iteration == pre.iteration + 1
            &&& post.phase == RunPhase::AwaitingReply
            &&& step is AskModel
        })
    &&& (pre.phase == RunPhase::Ready && pre.iteration >= pre.max_iterations ==> {
            &&& post.iteration == pre.iteration
            &&& post.phase == RunPhase::Finished
            &&& step matches LoopStep::Finished(f) && f@ == pre.final_content@
        })
    &&& (pre.phase != RunPhase::Ready ==> {
            &&& post == pre
            &&& step matches LoopStep::Finished(f) && f@ == pre.final_content@
        })
}

/// What [`IterationLoop::accept_reply`] does with `reply`: `pre` becomes `post`, `done` is returned.
pub open spec fn loop_reply_post(pre: IterationLoop, post: IterationLoop, reply: LlmResponse, done: Option<String>) -> bool {
    &&& post.iteration == pre.iteration
    &&& post.max_iterations == pre.max_iterations
    &&& (pre.phase != RunPhase::AwaitingReply ==> (post == pre && done is None))
    &&& (pre.phase == RunPhase::AwaitingReply ==> {
            &&& post.final_content@ == reply.content@
            &&& if reply.tool_calls.len() == 0 {
                &&& post.messages == pre.messages
                &&& post.phase == RunPhase::Finished
                &&& done matches Some(f) && f@ == reply.content@
            } else {
                &&& post.messages@.len() == pre.messages@.len() + 1
                &&& post.messages@.drop_last() =~= pre.messages@
                &&& post.messages@.last().role == MessageRole::Assistant
                &&& post.messages@.last().content@ == reply.content@
                &&& post.messages@.last().tool_calls matches Some(c) && c@
                    == reply.tool_calls@
                &&& post.messages@.last().tool_call_id is None
                &&& post.phase == RunPhase::AwaitingToolResults
                &&& done is None
            }
        })
}

/// What [`IterationLoop::accept_tool_results`] does with `results`: `pre` becomes `post`.
pub open spec fn loop_results_post(pre: IterationLoop, post: IterationLoop, results: Vec<ToolResult>, accepted: bool) -> bool {
    &&& post.iteration == pre.iteration
    &&& post.max_iterations == pre.max_iterations
    &&& post.final_content == pre.final_content
    &&& (accepted == (pre.phase == RunPhase::AwaitingToolResults && results.len()
            == pre.last_calls().len()))
    &&& (!accepted ==> post == pre)
    &&& (accepted ==> {
            let calls = pre.last_calls();
            let n = pre.messages@.len();
            &&& post.phase == RunPhase::Ready
            &&& post.messages@.len() == n + calls.len()
            &&& post.messages@.take(n as int) =~= pre.messages@
            &&& forall|i: int|
                0 <= i < calls.len() ==> answers_call(
                    #[trigger] post.messages@[n + i],
                    calls[i].id@,
                    results@[i].for_llm@,
                )
        })
}

impl IterationLoop {
    /// The loop's invariant: the counter stays within its limit, and a loop waiting
    /// for tool results has a last message that asked for them.
    pub open spec fn wf(&self) -> bool {
        &&& self.iteration <= self.max_iterations
        &&& (self.phase == RunPhase::AwaitingReply ==> self.iteration >= 1)
        &&& (self.phase == RunPhase::AwaitingToolResults ==> {
            &&& self.messages@.len() > 0
            &&& self.messages@.last().tool_calls matches Some(c) && c.len() > 0
        })
    }

    /// The calls that the last message asked for.
    pub open spec fn last_calls(&self) -> Seq<ToolCall> {
        match self.messages@.last().tool_calls {
            Some(c) => c@,
            None => Seq::empty(),
        }
    }

    /// Starts a loop over `messages` that asks the provider at most `max_iterations` times.
    pub fn new(messages: Vec<Message>, max_iterations: usize) -> (r: Self)
        ensures
            r.wf(),
            r.messages == messages,
            r.iteration == 0,
            r.max_iterations == max_iterations,
            r.final_content@ == Seq::<char>::empty(),
            r.phase == RunPhase::Ready,
    {
        IterationLoop {
            messages,
            iteration: 0,
            max_iterations,
            final_content: String::new(),
            phase: RunPhase::Ready,
        }
    }

    /// Decides the next step. A ready loop asks the provider until it has asked
    /// `max_iterations` times; then it finishes with the content of the last reply
    /// (empty if there was none). A finished loop keeps its content; a loop in any
    /// other phase is left as it is.
    pub fn next_step(&mut self) -> (step: LoopStep)
        requires
            old(self).wf(),
        ensures
            final(self).wf(),
            loop_step_post(*old(self), *final(self), step),

    {
        if self.phase == RunPhase::Ready {
            if self.iteration >= self.max_iterations {
                self.phase = RunPhase::Finished;
                LoopStep::Finished(self.final_content.clone())
            } else {
                self.iteration = self.iteration + 1;
                self.phase = RunPhase::AwaitingReply;
                LoopStep::AskModel
            }
        } else {
            LoopStep::Finished(self.final_content.clone())
        }
    }

    /// Records the provider's reply: its content becomes the final content. Without
    /// tool calls the loop is over and the content is returned; otherwise an assistant
    /// message with the calls joins the messages and the loop waits for their results.
    /// A loop that was not waiting for a reply is left as it is.
    pub fn accept_reply(&mut self, reply: LlmResponse) -> (done: Option<String>)
        requires
            old(self).wf(),
        ensures
            final(self).wf(),
            loop_reply_post(*old(self), *final(self), reply, done),

    {
        if self.phase != RunPhase::AwaitingReply {
            return None;
        }
        self.final_content = reply.content.clone();
        if reply.tool_calls.len() == 0 {
            self.phase = RunPhase::Finished;
            return Some(reply.content);
        }
        self.messages.push(
            Message {
                role: MessageRole::Assistant,
                content: reply.content,
                timestamp: now(),
                tool_calls: Some(reply.tool_calls),
                tool_call_id: None,
            },
        );
        self.phase = RunPhase::AwaitingToolResults;
        None
    }

    /// The tool calls whose results are due, in the order the provider asked for them.
    pub fn pending_calls(&self) -> (r: Option<&Vec<ToolCall>>)
        requires
            self.wf(),
        ensures
            self.phase == RunPhase::AwaitingToolResults ==> (r matches Some(c) && c@
                == self.last_calls()),
            self.phase != RunPhase::AwaitingToolResults ==> r is None,
    {
        if self.phase == RunPhase::AwaitingToolResults {
            match &self.messages[self.messages.len() - 1].tool_calls {
                Some(c) => Some(c),
                None => None,
            }
        } else {
            None
        }
    }

    /// Records the results of the pending calls, one per call and in the same order:
    /// each becomes a tool message that answers its call with the result's text for the
    /// model. The loop is then ready for the next request. When the loop was not
    /// waiting for results, or the number of results is wrong, nothing changes and
    /// `false` is returned.
    pub fn accept_tool_results(&mut self, results: Vec<ToolResult>) -> (accepted: bool)
        requires
            old(self).wf(),
        ensures
            final(self).wf(),
            loop_results_post(*old(self), *final(self), results, accepted),

    {
        if self.phase != RunPhase::AwaitingToolResults {
            return false;
        }
        let last = self.messages.len() - 1;
        let n = match &self.messages[last].tool_calls {
            Some(c) => c.len(),
            None => 0,
        };
        if results.len() != n {
            return false;
        }
        let ghost old_msgs = self.messages@;
        let ghost calls = self.last_calls();
        let mut i: usize = 0;
        while i < n
            invariant
                self.iteration == old(self).iteration,
                self.max_iterations == old(self).max_iterations,
                self.final_content == old(self).final_content,
                self.iteration <= self.max_iterations,
                self.phase == RunPhase::AwaitingToolResults,
                i <= n,
                n == calls.len(),
                results.len() == n,
                last + 1 == old_msgs.len(),
                old_msgs[last as int].tool_calls matches Some(c) && c@ == calls,
                self.messages@.len() == old_msgs.len() + i,
                self.messages@.take(old_msgs.len() as int) == old_msgs,
                forall|k: int|
                    0 <= k < i ==> answers_call(
                        #[trigger] self.messages@[old_msgs.len() + k],
                        calls[k].id@,
                        results@[k].for_llm@,
                    ),
            decreases n - i,
        {
            assert(self.messages@[last as int] == old_msgs[last as int]);
            let id = match &self.messages[last].tool_calls {
                Some(c) => c[i].id.clone(),
                None => String::new(),
            };
            let content = results[i].for_llm.clone();
            self.messages.push(
                Message {
                    role: MessageRole::Tool,
                    content,
                    timestamp: now(),
                    tool_calls: None,
                    tool_call_id: Some(id),
                },
            );
            assert(self.messages@.take(old_msgs.len() as int) =~= old_msgs);
            i = i + 1;
        }
        self.phase = RunPhase::Ready;
        true
    }
}

/// Whether `post` follows `pre` by one of the loop's operations; `asked` tells whether
/// that operation was a provider request.
pub open spec fn is_loop_transition(pre: IterationLoop, post: IterationLoop, asked: bool) -> bool {
    ||| exists|step: LoopStep| #[trigger] loop_step_post(pre, post, step) && asked == (step is AskModel)
    ||| !asked && exists|reply: LlmResponse, done: Option<String>| #[trigger] loop_reply_post(pre, post, reply, done)
    ||| !asked && exists|results: Vec<ToolResult>, acc: bool| #[trigger] loop_results_post(pre, post, results, acc)
}

/// A request advances the request counter by one, within the limit; no other
/// operation changes the counter or the limit.
pub proof fn law_loop_request_counting(pre: IterationLoop, post: IterationLoop, asked: bool)
    requires
        pre.wf(),
        post.wf(),
        is_loop_transition(pre, post, asked),
    ensures
        post.max_iterations == pre.max_iterations,
        asked ==> pre.iteration < pre.max_iterations && post.iteration == pre.iteration + 1,
        !asked ==> post.iteration == pre.iteration,
{
}

/// Over any sequence of operations, the loop asks the provider at most
/// `max_iterations` times: the number of requests equals the growth of the counter.
pub proof fn law_loop_requests_bounded(states: Seq<IterationLoop>, asked: Seq<bool>)
    requires
        states.len() == asked.len() + 1,
        forall|i: int| 0 <= i < states.len() ==> #[trigger] states[i].wf(),
        forall|i: int| 0 <= i < asked.len() ==> is_loop_transition(#[trigger] states[i], states[i + 1], asked[i]),
    ensures
        states.last().max_iterations == states[0].max_iterations,
        states.last().iteration == states[0].iteration + crate::agent::executor::request_count(asked),
        crate::agent::executor::request_count(asked) <= states[0].max_iterations,
    decreases asked.len(),
{
    if asked.len() > 0 {
        let n = asked.len() - 1;
        assert(is_loop_transition(states[n], states[n + 1], asked[n]));
        law_loop_requests_bounded(states.drop_last(), asked.drop_last());
        assert(states.drop_last().last() == states[n]);
        law_loop_request_counting(states[n], states[n + 1], asked[n]);
    }
}

/// When the limit is reached, the loop ends with the content of the last reply.
pub proof fn law_limit_keeps_last_content(pre: IterationLoop, post: IterationLoop, step: LoopStep)
    requires
        loop_step_post(pre, post, step),
        pre.phase == RunPhase::Ready,
        pre.iteration >= pre.max_iterations,
    ensures
        post.phase == RunPhase::Finished,
        step matches LoopStep::Finished(f) && f@ == pre.final_content@,
{
}

/// The messages only grow: no operation changes or drops a message already there.
pub proof fn law_messages_grow(pre: IterationLoop, post: IterationLoop, asked: bool)
    requires
        is_loop_transition(pre, post, asked),
    ensures
        post.messages@.len() >= pre.messages@.len(),
        post.messages@.take(pre.messages@.len() as int) == pre.messages@,
{
    if exists|step: LoopStep| #[trigger] loop_step_post(pre, post, step) && asked == (step is AskModel) {
        assert(post.messages@.take(pre.messages@.len() as int) =~= pre.messages@);
    } else if exists|reply: LlmResponse, done: Option<String>| #[trigger] loop_reply_post(pre, post, reply, done) {
        let (reply, done) = choose|reply: LlmResponse, done: Option<String>| #[trigger] loop_reply_post(pre, post, reply, done);
        assert(post.messages@.take(pre.messages@.len() as int) =~= pre.messages@);
    } else {
        let (results, acc) = choose|results: Vec<ToolResult>, acc: bool| #[trigger] loop_results_post(pre, post, results, acc);
        assert(post.messages@.take(pre.messages@.len() as int) =~= pre.messages@);
    }
}

} // verus!

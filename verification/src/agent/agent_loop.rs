//! The agent loop, as the decisions it takes.
//!
//! A turn is two nested loops. The outer one takes user input. The inner one
//! sends the conversation to the model and runs the tools that the reply asks
//! for, until the model stops asking or the iteration cap is reached.
//!
//! Talking to the model, to the user and to tools is the caller's part. The
//! types here say what to do next and take what came of it:
//! [`TurnLoop`] drives the inner loop, [`ResponseWalk`] goes through one
//! reply, block by block.

use vstd::prelude::*;
use crate::llm::types::{
    clone_blocks, lemma_deep_view_push, ContentBlock, ContentBlockView, Message, MessageContentView,
    MessageResponse, MessageView, Role, StopReason,
};
use crate::tools::tool::{ToolResult, ToolResultView};

verus! {

/// Maximum number of model calls in a single turn.
pub const MAX_TOOL_ITERATIONS: usize = 50;

/// What came of a tool call.
#[derive(Debug)]
pub enum ToolOutcome {
    /// Permission was denied: the tool did not run.
    Denied,
    /// The tool ran and gave a result, which may itself report an error.
    Completed(ToolResult),
    /// The tool could not run or broke off, with this message.
    Failed(String),
}

/// The model of a [`ToolOutcome`].
pub ghost enum ToolOutcomeView {
    Denied,
    Completed(ToolResultView),
    Failed(Seq<char>),
}

impl DeepView for ToolOutcome {
    type V = ToolOutcomeView;

    open spec fn deep_view(&self) -> ToolOutcomeView {
        match self {
            ToolOutcome::Denied => ToolOutcomeView::Denied,
            ToolOutcome::Completed(result) => ToolOutcomeView::Completed(result.deep_view()),
            ToolOutcome::Failed(message) => ToolOutcomeView::Failed(message@),
        }
    }
}

/// The block that answers the tool call `id` with an outcome. A denial and a
/// failure are answers like any other, flagged as errors, so that the model
/// sees them and can react.
pub open spec fn answer_block(id: Seq<char>, outcome: ToolOutcomeView) -> ContentBlockView {
    match outcome {
        ToolOutcomeView::Denied => ContentBlockView::ToolResult {
            tool_use_id: id,
            content: Some("Permission denied by user"@),
            is_error: Some(true),
        },
        ToolOutcomeView::Completed(result) => ContentBlockView::ToolResult {
            tool_use_id: id,
            content: result.shown(),
            is_error: if result.is_error {
                Some(true)
            } else {
                None
            },
        },
        ToolOutcomeView::Failed(message) => ContentBlockView::ToolResult {
            tool_use_id: id,
            content: Some("Tool execution failed: "@ + message),
            is_error: Some(true),
        },
    }
}

/// The block that answers the tool call `id` with an outcome.
pub fn tool_result_block(id: &str, outcome: &ToolOutcome) -> (r: ContentBlock)
    ensures
        r.deep_view() == answer_block(id@, outcome.deep_view()),
{
    match outcome {
        ToolOutcome::Denied => ContentBlock::ToolResult {
            tool_use_id: id.to_string(),
            content: Some("Permission denied by user".to_string()),
            is_error: Some(true),
        },
        ToolOutcome::Completed(result) => ContentBlock::ToolResult {
            tool_use_id: id.to_string(),
            content: result.shown(),
            is_error: if result.is_error {
                Some(true)
            } else {
                None
            },
        },
        ToolOutcome::Failed(message) => ContentBlock::ToolResult {
            tool_use_id: id.to_string(),
            content: Some(crate::text::concat("Tool execution failed: ", message.as_str())),
            is_error: Some(true),
        },
    }
}

/// The ids of the tool calls among the blocks, in order.
pub open spec fn tool_use_ids(blocks: Seq<ContentBlockView>) -> Seq<Seq<char>>
    decreases blocks.len(),
{
    if blocks.len() == 0 {
        Seq::empty()
    } else {
        let rest = tool_use_ids(blocks.drop_last());
        match blocks.last() {
            ContentBlockView::ToolUse { id, .. } => rest.push(id),
            _ => rest,
        }
    }
}

/// Whether every block is a tool result.
pub open spec fn all_tool_results(blocks: Seq<ContentBlockView>) -> bool {
    forall|i: int| 0 <= i < blocks.len() ==> (#[trigger] blocks[i]) is ToolResult
}

/// The ids that the tool results among the blocks answer, in order.
pub open spec fn tool_result_ids(blocks: Seq<ContentBlockView>) -> Seq<Seq<char>>
    decreases blocks.len(),
{
    if blocks.len() == 0 {
        Seq::empty()
    } else {
        let rest = tool_result_ids(blocks.drop_last());
        match blocks.last() {
            ContentBlockView::ToolResult { tool_use_id, .. } => rest.push(tool_use_id),
            _ => rest,
        }
    }
}

/// What to do with the next block of a reply.
#[derive(Debug)]
pub enum WalkStep {
    /// Show this text to the user.
    ShowText(String),
    /// Show this reasoning to the user, apart from the text.
    ShowThinking(String),
    /// The model asks for this tool call: resolve it, run the tool where it
    /// is permitted, and answer with what came of it.
    CallTool { id: String, name: String, input: serde_json::Value },
    /// The reply is through.
    Done,
}

/// The model of a [`WalkStep`].
pub ghost enum WalkStepView {
    ShowText(Seq<char>),
    ShowThinking(Seq<char>),
    CallTool { id: Seq<char>, name: Seq<char>, input: serde_json::Value },
    Done,
}

impl DeepView for WalkStep {
    type V = WalkStepView;

    open spec fn deep_view(&self) -> WalkStepView {
        match self {
            WalkStep::ShowText(text) => WalkStepView::ShowText(text@),
            WalkStep::ShowThinking(text) => WalkStepView::ShowThinking(text@),
            WalkStep::CallTool { id, name, input } => WalkStepView::CallTool {
                id: id@,
                name: name@,
                input: *input,
            },
            WalkStep::Done => WalkStepView::Done,
        }
    }
}

/// Whether a block asks for something to be done: text and reasoning are
/// shown, a tool call is answered. All other blocks are passed over.
pub open spec fn block_acts(block: ContentBlockView) -> bool {
    block is Text || block is Thinking || block is ToolUse
}

/// What the block asks for.
pub open spec fn block_step(block: ContentBlockView) -> WalkStepView {
    match block {
        ContentBlockView::Text { text } => WalkStepView::ShowText(text),
        ContentBlockView::Thinking { text } => WalkStepView::ShowThinking(text),
        ContentBlockView::ToolUse { id, name, input } => WalkStepView::CallTool { id, name, input },
        _ => WalkStepView::Done,
    }
}

/// The first place from `from` on of a block that asks for something, or the
/// number of blocks where there is none.
pub open spec fn next_acting(blocks: Seq<ContentBlockView>, from: int) -> int
    decreases blocks.len() - from,
{
    if from >= blocks.len() {
        blocks.len() as int
    } else if from >= 0 && block_acts(blocks[from]) {
        from
    } else {
        next_acting(blocks, from + 1)
    }
}

/// The new messages that a reply and the answers to its tool calls add to the
/// conversation: the assistant message with the reply's blocks as they came,
/// then one user message with all the answers. A reply without tool calls
/// adds nothing.
pub open spec fn turn_messages(content: Seq<ContentBlockView>, answers: Seq<ContentBlockView>) -> Seq<
    MessageView,
> {
    if answers.len() == 0 {
        Seq::empty()
    } else {
        seq![
            MessageView { role: Role::Assistant, content: MessageContentView::Blocks(content) },
            MessageView { role: Role::User, content: MessageContentView::Blocks(answers) },
        ]
    }
}

/// The model of a [`ResponseWalk`].
pub ghost struct WalkView {
    /// The blocks of the reply.
    pub content: Seq<ContentBlockView>,
    /// The reply's stop reason.
    pub stop_reason: Option<StopReason>,
    /// How many blocks are behind.
    pub position: int,
    /// The answers to the tool calls so far, in order.
    pub answers: Seq<ContentBlockView>,
    /// Whether the tool call just behind is still to be answered.
    pub pending: bool,
}

impl WalkView {
    /// The walk at the start of a reply.
    pub open spec fn initial(content: Seq<ContentBlockView>, stop_reason: Option<StopReason>) -> WalkView {
        WalkView { content, stop_reason, position: 0, answers: Seq::empty(), pending: false }
    }

    /// The tool call that waits for its answer.
    pub open spec fn pending_block(self) -> ContentBlockView {
        self.content[self.position - 1]
    }

    /// The walk is consistent: every tool call behind has its answer, in
    /// order, but for the one that is pending.
    pub open spec fn wf(self) -> bool {
        &&& 0 <= self.position <= self.content.len()
        &&& all_tool_results(self.answers)
        &&& if self.pending {
            &&& self.position > 0
            &&& self.pending_block() is ToolUse
            &&& tool_result_ids(self.answers) == tool_use_ids(self.content.take(self.position - 1))
        } else {
            tool_result_ids(self.answers) == tool_use_ids(self.content.take(self.position))
        }
    }

    /// Whether the walk is through: no block is left and no tool call waits.
    pub open spec fn done(self) -> bool {
        !self.pending && next_acting(self.content, self.position) == self.content.len()
    }

    /// The step that the walk asks for next. A pending tool call is asked for
    /// again until it is answered.
    pub open spec fn step(self) -> WalkStepView {
        if self.pending {
            block_step(self.pending_block())
        } else {
            let at = next_acting(self.content, self.position);
            if at < self.content.len() {
                block_step(self.content[at])
            } else {
                WalkStepView::Done
            }
        }
    }

    /// The walk after it has asked for its next step.
    pub open spec fn advanced(self) -> WalkView {
        if self.pending {
            self
        } else {
            let at = next_acting(self.content, self.position);
            if at < self.content.len() {
                WalkView { position: at + 1, pending: self.content[at] is ToolUse, ..self }
            } else {
                WalkView { position: at, ..self }
            }
        }
    }

    /// The walk after the pending tool call was answered. Without a pending
    /// call an answer changes nothing.
    pub open spec fn answered(self, outcome: ToolOutcomeView) -> WalkView {
        if self.pending {
            WalkView {
                answers: self.answers.push(answer_block(self.pending_block()->ToolUse_id, outcome)),
                pending: false,
                ..self
            }
        } else {
            self
        }
    }
}

/// Goes through one reply of the model, block by block.
#[derive(Debug)]
pub struct ResponseWalk {
    content: Vec<ContentBlock>,
    stop_reason: Option<StopReason>,
    position: usize,
    answers: Vec<ContentBlock>,
    pending: bool,
}

impl DeepView for ResponseWalk {
    type V = WalkView;

    closed spec fn deep_view(&self) -> WalkView {
        WalkView {
            content: self.content.deep_view(),
            stop_reason: self.stop_reason,
            position: self.position as int,
            answers: self.answers.deep_view(),
            pending: self.pending,
        }
    }
}

/// Going one block further keeps the ids of the tool calls behind, or adds
/// the id of the block passed.
pub proof fn lemma_tool_use_ids_step(content: Seq<ContentBlockView>, position: int)
    requires
        0 <= position < content.len(),
    ensures
        tool_use_ids(content.take(position + 1)) == match content[position] {
            ContentBlockView::ToolUse { id, .. } => tool_use_ids(content.take(position)).push(id),
            _ => tool_use_ids(content.take(position)),
        },
{
    assert(content.take(position + 1).drop_last() =~= content.take(position));
    assert(content.take(position + 1).last() == content[position]);
}

/// From a place to the next block that asks for something, no tool call is
/// passed.
pub proof fn lemma_next_acting(content: Seq<ContentBlockView>, from: int)
    requires
        0 <= from <= content.len(),
    ensures
        from <= next_acting(content, from) <= content.len(),
        next_acting(content, from) < content.len() ==> block_acts(
            content[next_acting(content, from)],
        ),
        tool_use_ids(content.take(next_acting(content, from))) == tool_use_ids(content.take(from)),
        forall|k: int| from <= k < next_acting(content, from) ==> !block_acts(#[trigger] content[k]),
    decreases content.len() - from,
{
    if from < content.len() && !block_acts(content[from]) {
        lemma_next_acting(content, from + 1);
        lemma_tool_use_ids_step(content, from);
    }
}

impl ResponseWalk {
    /// A walk at the start of the reply.
    pub fn new(response: &MessageResponse) -> (r: ResponseWalk)
        ensures
            r.deep_view() == WalkView::initial(response.content.deep_view(), response.stop_reason),
            r.deep_view().wf(),
    {
        let r = ResponseWalk {
            content: clone_blocks(&response.content),
            stop_reason: response.stop_reason,
            position: 0,
            answers: Vec::new(),
            pending: false,
        };
        proof {
            assert(r.answers.deep_view() =~= Seq::empty());
            assert(r.content.deep_view().take(0) =~= Seq::empty());
        }
        r
    }

    /// The next thing to do for this reply. Text and reasoning are handed
    /// out to be shown; a tool call is handed out to be answered, and is
    /// handed out again until [`ResponseWalk::answer`] has been called.
    pub fn next(&mut self) -> (r: WalkStep)
        requires
            old(self).deep_view().wf(),
        ensures
            final(self).deep_view().wf(),
            r.deep_view() == old(self).deep_view().step(),
            final(self).deep_view() == old(self).deep_view().advanced(),
    {
        if self.pending {
            return match &self.content[self.position - 1] {
                ContentBlock::ToolUse { id, name, input } => WalkStep::CallTool {
                    id: id.clone(),
                    name: name.clone(),
                    input: input.clone(),
                },
                _ => WalkStep::Done,
            };
        }
        let ghost start = self.deep_view();
        proof {
            lemma_next_acting(start.content, start.position);
        }
        while self.position < self.content.len()
            invariant
                self.deep_view().wf(),
                !self.pending,
                start == old(self).deep_view(),
                !start.pending,
                self.deep_view() == (WalkView { position: self.position as int, ..start }),
                start.position <= self.position <= self.content.len(),
                next_acting(start.content, self.position as int) == next_acting(
                    start.content,
                    start.position,
                ),
            decreases self.content.len() - self.position,
        {
            let at = self.position;
            proof {
                lemma_tool_use_ids_step(start.content, at as int);
                assert(start.content[at as int] == self.content[at as int].deep_view());
                assert(next_acting(start.content, at as int) == if block_acts(
                    start.content[at as int],
                ) {
                    at as int
                } else {
                    next_acting(start.content, at + 1)
                });
            }
            match &self.content[at] {
                ContentBlock::Text { text } => {
                    let step = WalkStep::ShowText(text.clone());
                    self.position = at + 1;
                    return step;
                },
                ContentBlock::Thinking { text } => {
                    let step = WalkStep::ShowThinking(text.clone());
                    self.position = at + 1;
                    return step;
                },
                ContentBlock::ToolUse { id, name, input } => {
                    let step = WalkStep::CallTool {
                        id: id.clone(),
                        name: name.clone(),
                        input: input.clone(),
                    };
                    self.position = at + 1;
                    self.pending = true;
                    return step;
                },
                _ => {
                    self.position = at + 1;
                },
            }
        }
        WalkStep::Done
    }

    /// Answers the pending tool call with what came of it. Returns whether a
    /// call was pending; without one the outcome is dropped.
    pub fn answer(&mut self, outcome: &ToolOutcome) -> (r: bool)
        requires
            old(self).deep_view().wf(),
        ensures
            final(self).deep_view().wf(),
            r == old(self).deep_view().pending,
            final(self).deep_view() == old(self).deep_view().answered(outcome.deep_view()),
    {
        if !self.pending {
            return false;
        }
        let ghost before = self.answers;
        let ghost view = self.deep_view();
        let block = match &self.content[self.position - 1] {
            ContentBlock::ToolUse { id, .. } => tool_result_block(id.as_str(), outcome),
            _ => tool_result_block("", outcome),
        };
        self.answers.push(block);
        self.pending = false;
        proof {
            lemma_deep_view_push(before, self.answers, self.answers[self.answers.len() - 1]);
            lemma_tool_use_ids_step(view.content, view.position - 1);
            let answers = self.answers.deep_view();
            assert(answers.drop_last() =~= before.deep_view());
            assert forall|i: int| 0 <= i < answers.len() implies (#[trigger] answers[i]) is ToolResult by {
                if i < before.deep_view().len() {
                    assert(answers[i] == before.deep_view()[i]);
                }
            }
        }
        true
    }

    /// Whether the walk is through.
    pub fn is_done(&self) -> (r: bool)
        requires
            self.deep_view().wf(),
        ensures
            r == self.deep_view().done(),
    {
        if self.pending {
            return false;
        }
        let mut k = self.position;
        let ghost content = self.content.deep_view();
        while k < self.content.len()
            invariant
                self.position <= k <= self.content.len(),
                content == self.content.deep_view(),
                next_acting(content, k as int) == next_acting(content, self.position as int),
            decreases self.content.len() - k,
        {
            match &self.content[k] {
                ContentBlock::Text { .. } => {
                    return false;
                },
                ContentBlock::Thinking { .. } => {
                    return false;
                },
                ContentBlock::ToolUse { .. } => {
                    return false;
                },
                _ => {},
            }
            k += 1;
        }
        true
    }

    /// Ends the walk. Once the walk is through, this gives whether the inner
    /// loop goes on, which is so only where the model stopped to have tools
    /// called, and the messages that the reply adds to the conversation. Every
    /// tool call of the reply then has exactly one answer, under its id and in
    /// its place. Before the walk is through, it gives `None`.
    pub fn finish(self) -> (r: Option<(bool, Vec<Message>)>)
        requires
            self.deep_view().wf(),
        ensures
            r is Some == self.deep_view().done(),
            r matches Some((goes_on, messages)) ==> {
                &&& goes_on == (self.deep_view().stop_reason == Some(StopReason::ToolUse))
                &&& messages.deep_view() == turn_messages(
                    self.deep_view().content,
                    self.deep_view().answers,
                )
                &&& all_tool_results(self.deep_view().answers)
                &&& tool_result_ids(self.deep_view().answers) == tool_use_ids(
                    self.deep_view().content,
                )
            },
    {
        if !self.is_done() {
            return None;
        }
        let ghost view = self.deep_view();
        proof {
            lemma_next_acting(view.content, view.position);
            assert(view.content.take(view.content.len() as int) =~= view.content);
        }
        let goes_on = match self.stop_reason {
            Some(StopReason::ToolUse) => true,
            _ => false,
        };
        let mut messages: Vec<Message> = Vec::new();
        proof {
            assert(messages.deep_view() =~= Seq::empty());
        }
        if self.answers.len() > 0 {
            let ghost empty = messages;
            messages.push(Message::assistant_with_blocks(self.content));
            let ghost one = messages;
            messages.push(Message::user_with_blocks(self.answers));
            proof {
                lemma_deep_view_push(empty, one, one[0]);
                lemma_deep_view_push(one, messages, messages[1]);
                assert(messages.deep_view() =~= turn_messages(view.content, view.answers));
            }
        }
        Some((goes_on, messages))
    }
}

/// How a turn ended.
#[derive(Clone, Copy, Debug, PartialEq, Eq, Structural)]
pub enum TurnEnd {
    /// The model stopped asking for tools.
    Completed,
    /// The iteration cap was reached. The turn is given up with the history
    /// as it stands; nothing is rolled back.
    IterationCapReached,
}

/// What the inner loop does next.
#[derive(Clone, Copy, Debug, PartialEq, Eq, Structural)]
pub enum TurnStep {
    /// Send the conversation to the model.
    CallProvider,
    /// The model was called and its reply is not worked through yet: answer
    /// its tool calls and hand the walk to [`TurnLoop::absorb`].
    AwaitReply,
    /// The turn is over: save the conversation.
    Stop(TurnEnd),
}

/// The state of the inner loop.
#[derive(Clone, Copy, Debug, PartialEq, Eq, Structural)]
pub struct TurnState {
    /// How often the model was called in this turn.
    pub iteration: usize,
    /// How often it may be called.
    pub max_iterations: usize,
    /// Whether the model stopped asking for tools.
    pub finished: bool,
    /// Whether the model was called and its reply is not worked through yet.
    pub awaiting: bool,
}

impl TurnState {
    /// The state at the start of a turn.
    pub open spec fn initial(max_iterations: usize) -> TurnState {
        TurnState { iteration: 0, max_iterations, finished: false, awaiting: false }
    }

    /// What the loop does next. The model is not called again before the
    /// reply to the last call is worked through, and it is called only while
    /// it has been called fewer times than the cap allows.
    pub open spec fn step(self) -> TurnStep {
        if self.finished {
            TurnStep::Stop(TurnEnd::Completed)
        } else if self.awaiting {
            TurnStep::AwaitReply
        } else if self.iteration >= self.max_iterations {
            TurnStep::Stop(TurnEnd::IterationCapReached)
        } else {
            TurnStep::CallProvider
        }
    }

    /// The state after the loop has asked for its next step.
    pub open spec fn advanced(self) -> TurnState {
        if self.step() == TurnStep::CallProvider {
            TurnState { iteration: (self.iteration + 1) as usize, awaiting: true, ..self }
        } else {
            self
        }
    }

    /// The state after the reply that the loop waits for was worked through.
    pub open spec fn absorbed(self, goes_on: bool) -> TurnState {
        TurnState { finished: self.finished || !goes_on, awaiting: false, ..self }
    }

    /// The state after `rounds` rounds in each of which the loop asks for its
    /// next step and the model, if it is called, asks for tools again.
    pub open spec fn after_tool_rounds(self, rounds: nat) -> TurnState
        decreases rounds,
    {
        if rounds == 0 {
            self
        } else {
            self.after_tool_rounds((rounds - 1) as nat).advanced().absorbed(true)
        }
    }
}

/// The inner loop of one turn: the conversation, and how often the model was
/// called.
#[derive(Debug)]
pub struct TurnLoop {
    messages: Vec<Message>,
    state: TurnState,
}

impl TurnLoop {
    /// The conversation as it stands.
    pub closed spec fn conversation(self) -> Seq<MessageView> {
        self.messages.deep_view()
    }

    /// The state of the loop.
    pub closed spec fn state(self) -> TurnState {
        self.state
    }

    /// Starts a turn: the user's message goes behind the history.
    pub fn start(history: Vec<Message>, user_message: &str, max_iterations: usize) -> (r: TurnLoop)
        ensures
            r.conversation() == history.deep_view().push(
                MessageView { role: Role::User, content: MessageContentView::Text(user_message@) },
            ),
            r.state() == TurnState::initial(max_iterations),
    {
        let mut messages = history;
        let ghost before = messages;
        messages.push(Message::user(user_message));
        proof {
            lemma_deep_view_push(before, messages, messages[messages.len() - 1]);
        }
        TurnLoop {
            messages,
            state: TurnState { iteration: 0, max_iterations, finished: false, awaiting: false },
        }
    }

    /// What the loop does next.
    pub fn next(&mut self) -> (r: TurnStep)
        ensures
            r == old(self).state().step(),
            final(self).state() == old(self).state().advanced(),
            final(self).conversation() == old(self).conversation(),
    {
        if self.state.finished {
            TurnStep::Stop(TurnEnd::Completed)
        } else if self.state.awaiting {
            TurnStep::AwaitReply
        } else if self.state.iteration >= self.state.max_iterations {
            TurnStep::Stop(TurnEnd::IterationCapReached)
        } else {
            self.state.iteration = self.state.iteration + 1;
            self.state.awaiting = true;
            TurnStep::CallProvider
        }
    }

    /// Takes the walk through the reply that the loop waits for. The walk is
    /// taken only where a reply is waited for and the walk is through: every
    /// tool call of the reply then has its answer. Its messages go behind the
    /// conversation, and the loop goes on only where the reply asks for it.
    /// Any other walk is refused, changes nothing and is handed back.
    pub fn absorb(&mut self, walk: ResponseWalk) -> (r: Result<(), ResponseWalk>)
        requires
            walk.deep_view().wf(),
        ensures
            r is Ok == (old(self).state().awaiting && walk.deep_view().done()),
            r is Ok ==> {
                &&& final(self).state() == old(self).state().absorbed(
                    walk.deep_view().stop_reason == Some(StopReason::ToolUse),
                )
                &&& final(self).conversation() == old(self).conversation() + turn_messages(
                    walk.deep_view().content,
                    walk.deep_view().answers,
                )
                &&& all_tool_results(walk.deep_view().answers)
                &&& tool_result_ids(walk.deep_view().answers) == tool_use_ids(
                    walk.deep_view().content,
                )
            },
            r matches Err(back) ==> {
                &&& back.deep_view() == walk.deep_view()
                &&& final(self).state() == old(self).state()
                &&& final(self).conversation() == old(self).conversation()
            },
    {
        if !self.state.awaiting || !walk.is_done() {
            return Err(walk);
        }
        let ghost taken = walk.deep_view();
        match walk.finish() {
            Some((goes_on, new_messages)) => {
                let mut more = new_messages;
                let ghost before = self.messages;
                self.messages.append(&mut more);
                proof {
                    crate::llm::types::lemma_deep_view_add(before, new_messages, self.messages);
                }
                if !goes_on {
                    self.state.finished = true;
                }
                self.state.awaiting = false;
                Ok(())
            },
            None => {
                proof {
                    assert(taken.done());
                }
                Ok(())
            },
        }
    }

    /// How often the model was called in this turn.
    pub fn iterations(&self) -> (r: usize)
        ensures
            r == self.state().iteration,
    {
        self.state.iteration
    }

    /// The conversation as it stands.
    pub fn messages(&self) -> (r: &Vec<Message>)
        ensures
            r.deep_view() == self.conversation(),
    {
        &self.messages
    }

    /// Ends the turn and hands the conversation out.
    pub fn into_messages(self) -> (r: Vec<Message>)
        ensures
            r.deep_view() == self.conversation(),
    {
        self.messages
    }
}

/// The messages that go out to the model: the hidden context first, where
/// there is any, then the conversation. The conversation itself stays as it
/// is.
pub fn outbound_messages(conversation: &Vec<Message>, hidden: Option<Message>) -> (r: Vec<Message>)
    ensures
        r.deep_view() == match hidden {
            Some(h) => seq![h.deep_view()] + conversation.deep_view(),
            None => conversation.deep_view(),
        },
{
    let mut out: Vec<Message> = Vec::new();
    match hidden {
        Some(h) => {
            let ghost before = out;
            out.push(h);
            proof {
                lemma_deep_view_push(before, out, out[0]);
                assert(out.deep_view() =~= seq![h.deep_view()]);
            }
        },
        None => {
            proof {
                assert(out.deep_view() =~= Seq::empty());
            }
        },
    }
    let ghost head = out.deep_view();
    let mut i: usize = 0;
    proof {
        assert(head + conversation.deep_view().take(0) =~= head);
    }
    while i < conversation.len()
        invariant
            0 <= i <= conversation.len(),
            out.deep_view() == head + conversation.deep_view().take(i as int),
        decreases conversation.len() - i,
    {
        let ghost before = out;
        out.push(conversation[i].clone());
        proof {
            lemma_deep_view_push(before, out, out[out.len() - 1]);
            assert(out.deep_view() =~= head + conversation.deep_view().take(i + 1));
        }
        i += 1;
    }
    proof {
        assert(conversation.deep_view().take(conversation.len() as int)
            =~= conversation.deep_view());
        if hidden is None {
            assert(head + conversation.deep_view() =~= conversation.deep_view());
        }
    }
    out
}

/// The messages that are not saved yet: those behind the first `saved`.
pub fn unsaved_messages(messages: &Vec<Message>, saved: usize) -> (r: Vec<Message>)
    ensures
        r.deep_view() == if saved <= messages.len() {
            messages.deep_view().skip(saved as int)
        } else {
            Seq::empty()
        },
{
    let mut out: Vec<Message> = Vec::new();
    proof {
        assert(out.deep_view() =~= Seq::empty());
    }
    if saved > messages.len() {
        return out;
    }
    let mut i: usize = saved;
    proof {
        assert(messages.deep_view().subrange(saved as int, saved as int) =~= Seq::empty());
    }
    while i < messages.len()
        invariant
            saved <= i <= messages.len(),
            out.deep_view() == messages.deep_view().subrange(saved as int, i as int),
        decreases messages.len() - i,
    {
        let ghost before = out;
        out.push(messages[i].clone());
        proof {
            lemma_deep_view_push(before, out, out[out.len() - 1]);
            assert(out.deep_view() =~= messages.deep_view().subrange(saved as int, i + 1));
        }
        i += 1;
    }
    proof {
        assert(messages.deep_view().subrange(saved as int, messages.len() as int)
            =~= messages.deep_view().skip(saved as int));
    }
    out
}

/// The iteration cap holds against a model that never stops asking for
/// tools: in the first `max_iterations` rounds the model is called, once in
/// each, and from then on the loop stops with the cap reached. So the model is
/// called exactly `max_iterations` times.
pub proof fn lemma_iteration_cap(max_iterations: usize, rounds: nat)
    ensures
        ({
            let state = TurnState::initial(max_iterations).after_tool_rounds(rounds);
            &&& !state.finished
            &&& !state.awaiting
            &&& state.max_iterations == max_iterations
            &&& state.iteration == if rounds <= max_iterations {
                rounds
            } else {
                max_iterations as nat
            }
            &&& state.step() == if rounds < max_iterations {
                TurnStep::CallProvider
            } else {
                TurnStep::Stop(TurnEnd::IterationCapReached)
            }
        }),
    decreases rounds,
{
    if rounds > 0 {
        lemma_iteration_cap(max_iterations, (rounds - 1) as nat);
    }
}

/// The model is never called more often than the cap allows, whatever it
/// answers and whatever is done between the calls.
pub proof fn lemma_calls_within_cap(state: TurnState, goes_on: bool)
    requires
        state.iteration <= state.max_iterations,
    ensures
        state.advanced().iteration <= state.max_iterations,
        state.absorbed(goes_on).iteration <= state.max_iterations,
        state.step() == TurnStep::CallProvider ==> state.iteration < state.max_iterations
            && !state.awaiting,
        state.advanced().max_iterations == state.max_iterations,
        state.absorbed(goes_on).max_iterations == state.max_iterations,
{
}

/// Pairing: however the tool calls of a reply are answered, once the walk
/// through it is done each tool call has exactly one answer, with its id, in
/// the order of the calls, and nothing else is among the answers.
pub proof fn lemma_every_tool_use_answered(walk: WalkView)
    requires
        walk.wf(),
        walk.done(),
    ensures
        all_tool_results(walk.answers),
        tool_result_ids(walk.answers) == tool_use_ids(walk.content),
        walk.answers.len() == tool_use_ids(walk.content).len(),
{
    lemma_next_acting(walk.content, walk.position);
    assert(walk.content.take(walk.content.len() as int) =~= walk.content);
    lemma_result_ids_len(walk.answers);
}

/// Of blocks that are all tool results there are as many ids as blocks.
pub proof fn lemma_result_ids_len(blocks: Seq<ContentBlockView>)
    requires
        all_tool_results(blocks),
    ensures
        tool_result_ids(blocks).len() == blocks.len(),
    decreases blocks.len(),
{
    if blocks.len() > 0 {
        assert(blocks.last() == blocks[blocks.len() - 1]);
        assert forall|i: int| 0 <= i < blocks.drop_last().len() implies (#[trigger] blocks.drop_last()[i]) is ToolResult by {
            assert(blocks.drop_last()[i] == blocks[i]);
        }
        lemma_result_ids_len(blocks.drop_last());
    }
}

/// The walk keeps its consistency through every step and every answer.
pub proof fn lemma_walk_preserves_wf(walk: WalkView, outcome: ToolOutcomeView)
    requires
        walk.wf(),
    ensures
        walk.advanced().wf(),
        walk.answered(outcome).wf(),
{
    lemma_next_acting(walk.content, walk.position);
    if !walk.pending {
        let at = next_acting(walk.content, walk.position);
        if at < walk.content.len() {
            lemma_tool_use_ids_step(walk.content, at);
        }
    } else {
        lemma_tool_use_ids_step(walk.content, walk.position - 1);
        let answers = walk.answered(outcome).answers;
        assert(answers.drop_last() =~= walk.answers);
        assert forall|i: int| 0 <= i < answers.len() implies (#[trigger] answers[i]) is ToolResult by {
            if i < walk.answers.len() {
                assert(answers[i] == walk.answers[i]);
            }
        }
    }
}

} // verus!

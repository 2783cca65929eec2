use crate::helpers::command_line::PrintCommand;
use crate::models::agents::agent_protocol::{
    AgentError, AgentErrorView, ProgressLine, ProgressLineView,
};
use crate::models::general::llm::{
    reply_view, GatewayError, GatewayErrorView, Message, MessageView,
};
use vstd::prelude::*;
use vstd::string::StringExecFns;

verus! {

/// The text of the system prompt that asks the model to act as the function
/// described by `template` on the input `input`.
pub open spec fn function_prompt(template: Seq<char>, input: Seq<char>) -> Seq<char> {
    "FUNCTION: "@ + template
        + " INSTRUCTION: you are a function priter.you ONLY print the result of functions.\n    Nothing else.No commentery.Here is the input to the function: "@
        + input + ".\n    Print out what the function will return."@
}

/// The system message that wraps the description `template` and the input
/// `input` in the fixed instruction.
pub fn function_prompt_message(template: &str, input: &str) -> (msg: Message)
    ensures
        msg.role@ == "system"@,
        msg.content@ == function_prompt(template@, input@),
{
    let mut content = String::from_str("FUNCTION: ");
    content.append(template);
    content.append(
        " INSTRUCTION: you are a function priter.you ONLY print the result of functions.\n    Nothing else.No commentery.Here is the input to the function: ",
    );
    content.append(input);
    content.append(".\n    Print out what the function will return.");
    Message { role: String::from_str("system"), content }
}

/// Builds the single system message of a task request: the description that
/// `ai_func` gives for `func_input`, wrapped in the fixed instruction.
pub fn extend_ai_function<F>(ai_func: F, func_input: &str) -> (msg: Message) where
    F: Fn(&str) -> &'static str,

    requires
        call_requires(ai_func, (func_input,)),
    ensures
        msg.role@ == "system"@,
        exists|template: &'static str| #[trigger]
            call_ensures(ai_func, (func_input,), template) && msg.content@ == function_prompt(
                template@,
                func_input@,
            ),
{
    let ai_function_str: &'static str = ai_func(func_input);
    function_prompt_message(ai_function_str, func_input)
}

/// One task request against the model that has not begun: the system
/// message to send and the tags of its progress line. Nothing is printed
/// and nothing is sent before [`TaskRequest::begin`].
#[derive(Debug, PartialEq)]
pub struct TaskRequest {
    message: Message,
    position: String,
    operation: String,
}

/// A [`TaskRequest`] with its texts as sequences of characters.
pub struct TaskRequestView {
    pub message: MessageView,
    pub position: Seq<char>,
    pub operation: Seq<char>,
}

impl View for TaskRequest {
    type V = TaskRequestView;

    closed spec fn view(&self) -> TaskRequestView {
        TaskRequestView {
            message: self.message@,
            position: self.position@,
            operation: self.operation@,
        }
    }
}

/// A task request whose messages are with the gateway: it waits for the
/// answer to that one call, and knows whether the call is the retry.
#[derive(Debug, PartialEq)]
pub struct PendingReply {
    message: Message,
    retried: bool,
}

pub struct PendingReplyView {
    pub message: MessageView,
    pub retried: bool,
}

impl View for PendingReply {
    type V = PendingReplyView;

    closed spec fn view(&self) -> PendingReplyView {
        PendingReplyView { message: self.message@, retried: self.retried }
    }
}

/// How a task request begins: the progress line to print, then the
/// messages of the first call of the gateway, and the request that waits
/// for the answer to that call.
#[derive(Debug, PartialEq)]
pub struct TaskStart {
    pub announcement: ProgressLine,
    pub messages: Vec<Message>,
    pub pending: PendingReply,
}

pub struct TaskStartView {
    pub announcement: ProgressLineView,
    pub messages: Seq<MessageView>,
    pub pending: PendingReplyView,
}

impl View for TaskStart {
    type V = TaskStartView;

    open spec fn view(&self) -> TaskStartView {
        TaskStartView {
            announcement: self.announcement@,
            messages: self.messages.deep_view(),
            pending: self.pending@,
        }
    }
}

/// What an answer of the gateway makes of a task request.
#[derive(Debug, PartialEq)]
pub enum TaskProgress {
    /// The gateway failed for the first time: it is to be called once
    /// more, with these messages; no line is printed for the retry.
    Retry { messages: Vec<Message>, pending: PendingReply },
    /// The gateway answered: this is the text of the model.
    Done(String),
    /// The gateway failed for the second time: the request has failed.
    Failed(GatewayError),
}

pub enum TaskProgressView {
    Retry { messages: Seq<MessageView>, pending: PendingReplyView },
    Done(Seq<char>),
    Failed(GatewayErrorView),
}

impl View for TaskProgress {
    type V = TaskProgressView;

    open spec fn view(&self) -> TaskProgressView {
        match self {
            TaskProgress::Retry { messages, pending } => TaskProgressView::Retry {
                messages: messages.deep_view(),
                pending: pending@,
            },
            TaskProgress::Done(text) => TaskProgressView::Done(text@),
            TaskProgress::Failed(error) => TaskProgressView::Failed(error@),
        }
    }
}

/// The progress line of a task request: a line of the kind `AICall`,
/// tagged with the position of the agent and the operation.
pub open spec fn task_announcement(request: TaskRequestView) -> ProgressLineView {
    ProgressLineView {
        command: PrintCommand::AICall,
        position: request.position,
        statement: request.operation,
    }
}

/// How a task request begins: its line is printed, and its one message
/// goes to the gateway for the first time. The messages do not depend on
/// the tags of the line.
pub open spec fn task_start(request: TaskRequestView) -> TaskStartView {
    TaskStartView {
        announcement: task_announcement(request),
        messages: seq![request.message],
        pending: PendingReplyView { message: request.message, retried: false },
    }
}

/// The retry policy: an answer ends the request with its text, a first
/// failure is retried once with the same messages, a second failure ends
/// the request with that failure.
pub open spec fn task_progress(
    pending: PendingReplyView,
    reply: Result<Seq<char>, GatewayErrorView>,
) -> TaskProgressView {
    match reply {
        Ok(text) => TaskProgressView::Done(text),
        Err(error) => if pending.retried {
            TaskProgressView::Failed(error)
        } else {
            TaskProgressView::Retry {
                messages: seq![pending.message],
                pending: PendingReplyView { retried: true, ..pending },
            }
        },
    }
}

/// The one message of a request, as the list that goes to the gateway.
fn single_message(message: &Message) -> (messages: Vec<Message>)
    ensures
        messages.deep_view() == seq![message@],
{
    let mut messages: Vec<Message> = Vec::new();
    messages.push(message.clone());
    assert(messages.deep_view() =~= seq![message@]);
    messages
}

impl TaskRequest {
    /// A task request that has not begun: its message is the system
    /// message that [`extend_ai_function`] builds from `function_pass` and
    /// `msg_context`.
    pub fn new<F>(
        msg_context: &str,
        agent_position: &str,
        agent_operation: &str,
        function_pass: F,
    ) -> (request: Self) where F: Fn(&str) -> &'static str
        requires
            call_requires(function_pass, (msg_context,)),
        ensures
            request@.position == agent_position@,
            request@.operation == agent_operation@,
            request@.message.role == "system"@,
            exists|template: &'static str| #[trigger]
                call_ensures(function_pass, (msg_context,), template) && request@.message.content
                    == function_prompt(template@, msg_context@),
    {
        let message = extend_ai_function(function_pass, msg_context);
        TaskRequest {
            message,
            position: String::from_str(agent_position),
            operation: String::from_str(agent_operation),
        }
    }

    /// Begins the request: hands out the progress line, which is to be
    /// printed first, together with the messages of the first call of the
    /// gateway. The line is handed out here and nowhere else, so that it
    /// is printed once for a request, and before the gateway is called.
    pub fn begin(self) -> (start: TaskStart)
        ensures
            start@ == task_start(self@),
    {
        let messages = single_message(&self.message);
        TaskStart {
            announcement: ProgressLine {
                command: PrintCommand::AICall,
                position: self.position,
                statement: self.operation,
            },
            messages,
            pending: PendingReply { message: self.message, retried: false },
        }
    }
}

impl PendingReply {
    /// Whether the call that is awaited is the retry.
    pub fn retried(&self) -> (retried: bool)
        ensures
            retried == self@.retried,
    {
        self.retried
    }

    /// Takes the answer of the gateway and applies the retry policy.
    pub fn on_reply(self, reply: Result<String, GatewayError>) -> (progress: TaskProgress)
        ensures
            progress@ == task_progress(self@, reply_view(reply)),
    {
        match reply {
            Ok(text) => TaskProgress::Done(text),
            Err(error) => {
                if self.retried {
                    TaskProgress::Failed(error)
                } else {
                    let messages = single_message(&self.message);
                    TaskProgress::Retry {
                        messages,
                        pending: PendingReply { message: self.message, retried: true },
                    }
                }
            },
        }
    }
}

/// What a decoded answer is worth: the value, or, where the answer of
/// the model could not be decoded, the failure `Decode`. Such a failure is
/// final: the model is not asked again.
pub fn decoded_reply<T>(decoded: Option<T>) -> (value: Result<T, AgentError>)
    ensures
        decoded matches Some(inner) ==> value == Ok::<T, AgentError>(inner),
        decoded is None ==> (value matches Err(error) && error@ == AgentErrorView::Decode),
{
    match decoded {
        Some(inner) => Ok(inner),
        None => Err(AgentError::Decode),
    }
}

/// What the driver of a task request does, one after the other.
pub enum TaskAction {
    /// It prints the progress line.
    Announce(ProgressLineView),
    /// It calls the gateway with these messages.
    Invoke(Seq<MessageView>),
}

/// How a task request goes against a gateway that gives `replies`, one
/// for each call: how it ends, with the text or the failure, after how
/// many calls, and what the driver did. `None` says that the replies ran
/// out before the request was decided.
pub struct TaskRun {
    pub outcome: Option<Result<Seq<char>, GatewayErrorView>>,
    pub calls: nat,
    pub actions: Seq<TaskAction>,
}

/// The calls of the gateway with `messages`, from a request that waits
/// for an answer, against the replies of a gateway.
pub open spec fn pending_run(
    messages: Seq<MessageView>,
    pending: PendingReplyView,
    replies: Seq<Result<Seq<char>, GatewayErrorView>>,
) -> TaskRun
    decreases replies.len(),
{
    if replies.len() == 0 {
        TaskRun { outcome: None, calls: 0, actions: Seq::empty() }
    } else {
        match task_progress(pending, replies.first()) {
            TaskProgressView::Done(text) => TaskRun {
                outcome: Some(Ok(text)),
                calls: 1,
                actions: seq![TaskAction::Invoke(messages)],
            },
            TaskProgressView::Failed(error) => TaskRun {
                outcome: Some(Err(error)),
                calls: 1,
                actions: seq![TaskAction::Invoke(messages)],
            },
            TaskProgressView::Retry { messages: again, pending: waiting } => {
                let rest = pending_run(again, waiting, replies.drop_first());
                TaskRun {
                    outcome: rest.outcome,
                    calls: rest.calls + 1,
                    actions: seq![TaskAction::Invoke(messages)] + rest.actions,
                }
            },
        }
    }
}

/// The run of a task request from its beginning: the line is printed,
/// then the gateway is called.
pub open spec fn task_run(
    request: TaskRequestView,
    replies: Seq<Result<Seq<char>, GatewayErrorView>>,
) -> TaskRun {
    let start = task_start(request);
    let calls = pending_run(start.messages, start.pending, replies);
    TaskRun {
        outcome: calls.outcome,
        calls: calls.calls,
        actions: seq![TaskAction::Announce(start.announcement)] + calls.actions,
    }
}

/// Against a gateway that fails once and then answers, the request ends
/// with that answer, after two calls.
pub proof fn lemma_one_failure_is_retried(
    request: TaskRequestView,
    failure: GatewayErrorView,
    text: Seq<char>,
)
    ensures
        task_run(request, seq![Err(failure), Ok(text)]).outcome == Some(
            Ok::<Seq<char>, GatewayErrorView>(text),
        ),
        task_run(request, seq![Err(failure), Ok(text)]).calls == 2,
{
    let replies: Seq<Result<Seq<char>, GatewayErrorView>> = seq![Err(failure), Ok(text)];
    let start = task_start(request);
    let again = PendingReplyView { retried: true, ..start.pending };
    assert(replies.drop_first().first() == Ok::<Seq<char>, GatewayErrorView>(text));
    assert(pending_run(seq![request.message], again, replies.drop_first()).outcome == Some(
        Ok::<Seq<char>, GatewayErrorView>(text),
    ));
    assert(pending_run(seq![request.message], again, replies.drop_first()).calls == 1);
}

/// Against a gateway that always fails, the request ends with the second
/// failure, after two calls, however many replies the gateway would give.
pub proof fn lemma_second_failure_is_fatal(
    request: TaskRequestView,
    replies: Seq<Result<Seq<char>, GatewayErrorView>>,
)
    requires
        replies.len() >= 2,
        replies[0] is Err,
        replies[1] is Err,
    ensures
        task_run(request, replies).outcome == Some(
            Err::<Seq<char>, GatewayErrorView>(replies[1]->Err_0),
        ),
        task_run(request, replies).calls == 2,
{
    let start = task_start(request);
    let again = PendingReplyView { retried: true, ..start.pending };
    assert(replies.drop_first().first() == replies[1]);
    assert(pending_run(seq![request.message], again, replies.drop_first()).outcome == Some(
        Err::<Seq<char>, GatewayErrorView>(replies[1]->Err_0),
    ));
    assert(pending_run(seq![request.message], again, replies.drop_first()).calls == 1);
}

/// Whatever the gateway does, it is called at most twice for one request,
/// a request that got two replies is decided, and a first answer ends the
/// request after one call.
pub proof fn lemma_at_most_two_calls(
    request: TaskRequestView,
    replies: Seq<Result<Seq<char>, GatewayErrorView>>,
)
    ensures
        task_run(request, replies).calls <= 2,
        task_run(request, replies).calls <= replies.len(),
        replies.len() >= 2 ==> task_run(request, replies).outcome is Some,
        replies.len() >= 1 && replies[0] is Ok ==> task_run(request, replies).outcome == Some(
            Ok::<Seq<char>, GatewayErrorView>(replies[0]->Ok_0),
        ) && task_run(request, replies).calls == 1,
{
    let start = task_start(request);
    if replies.len() > 0 {
        let again = PendingReplyView { retried: true, ..start.pending };
        let rest = replies.drop_first();
        if rest.len() > 0 {
            assert(pending_run(seq![request.message], again, rest).calls == 1);
            assert(pending_run(seq![request.message], again, rest).outcome is Some);
        } else {
            assert(pending_run(seq![request.message], again, rest).calls == 0);
        }
    }
}

/// The progress line is printed once for a request, and before the
/// gateway is called: the first thing that the driver does is to print
/// the line of the request, and everything that it does afterwards is a
/// call of the gateway with the one message of the request. A retry
/// prints no further line and sends the same messages.
pub proof fn lemma_announced_once_before_the_first_call(
    request: TaskRequestView,
    replies: Seq<Result<Seq<char>, GatewayErrorView>>,
)
    ensures
        ({
            let run = task_run(request, replies);
            &&& run.actions.len() == run.calls + 1
            &&& run.actions[0] == TaskAction::Announce(task_announcement(request))
            &&& forall|k: int|
                1 <= k < run.actions.len() ==> #[trigger] run.actions[k] == TaskAction::Invoke(
                    seq![request.message],
                )
        }),
{
    let start = task_start(request);
    let run = task_run(request, replies);
    let calls = pending_run(start.messages, start.pending, replies);
    if replies.len() > 0 {
        let again = PendingReplyView { retried: true, ..start.pending };
        let rest = replies.drop_first();
        let second = pending_run(seq![request.message], again, rest);
        if rest.len() > 0 {
            assert(second.actions =~= seq![TaskAction::Invoke(seq![request.message])]);
        } else {
            assert(second.actions =~= Seq::<TaskAction>::empty());
        }
        assert(calls.actions.len() == calls.calls);
        assert forall|k: int| 0 <= k < calls.actions.len() implies calls.actions[k]
            == TaskAction::Invoke(seq![request.message]) by {}
    }
    assert forall|k: int| 1 <= k < run.actions.len() implies #[trigger] run.actions[k]
        == TaskAction::Invoke(seq![request.message]) by {
        assert(run.actions[k] == calls.actions[k - 1]);
    }
}

/// The tags of the progress line do not reach the model: two requests
/// with the same message are sent in the same calls and end in the same
/// way, whatever position and operation they are tagged with.
pub proof fn lemma_tags_do_not_reach_the_model(
    left: TaskRequestView,
    right: TaskRequestView,
    replies: Seq<Result<Seq<char>, GatewayErrorView>>,
)
    requires
        left.message == right.message,
    ensures
        task_run(left, replies).outcome == task_run(right, replies).outcome,
        task_run(left, replies).calls == task_run(right, replies).calls,
        task_run(left, replies).actions.drop_first() == task_run(
            right,
            replies,
        ).actions.drop_first(),
{
    let calls = pending_run(task_start(left).messages, task_start(left).pending, replies);
    assert(task_run(left, replies).actions.drop_first() =~= calls.actions);
    assert(task_run(right, replies).actions.drop_first() =~= calls.actions);
}

} // verus!

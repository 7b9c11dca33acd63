//! The task decoder: how a task and its input become the one message that is
//! sent to the language model.

use vstd::prelude::*;
use crate::ai_functions::{
    convert_user_input_to_goal, instruction_text, print_backend_webserver_code, print_fixed_code,
    print_project_scope, print_rest_api_endpoints, print_site_urls, TaskKind,
};
use crate::command_line::{AgentNotice, AgentNoticeView, PrintCommand};
use crate::llm::{conversation, Message, MessageView};

verus! {

pub const EXTENSION_HEAD: &'static str = "FUNCTION: ";

pub const EXTENSION_BODY: &'static str =
    "\n    INSTRUCTION: You are a function printer. You ONLY print the results of functions. \n    Nothing else. No commentary. Here is the input to the function: ";

pub const EXTENSION_TAIL: &'static str = ".\n    Print out what the function will return.";

/// The text of an extended message: the instruction and the input, each
/// verbatim, framed by the directive that confines the model to the bare
/// output.
pub open spec fn extended_content(instruction: Seq<char>, input: Seq<char>) -> Seq<char> {
    EXTENSION_HEAD@ + instruction + EXTENSION_BODY@ + input + EXTENSION_TAIL@
}

/// `needle` occurs in `hay` as one unbroken run.
pub open spec fn contains_text(hay: Seq<char>, needle: Seq<char>) -> bool {
    exists|at: int|
        0 <= at && at + needle.len() <= hay.len() && #[trigger] hay.subrange(
            at,
            at + needle.len(),
        ) == needle
}

/// Extends an instruction to encourage the bare output: asks `ai_function`
/// for its instruction text and wraps it, with `func_input`, in a system
/// message.
pub fn extend_ai_functions<F>(ai_function: F, func_input: &str) -> (message: Message) where
    F: Fn(&str) -> &'static str,

    requires
        call_requires(ai_function, (func_input,)),
    ensures
        message@.role == "system"@,
        exists|text: &'static str| #[trigger]
            call_ensures(ai_function, (func_input,), text) && message@.content
                == extended_content(text@, func_input@),
{
    let ai_function_str = ai_function(func_input);
    let message = String::from_str(EXTENSION_HEAD).concat(ai_function_str).concat(
        EXTENSION_BODY,
    ).concat(func_input).concat(EXTENSION_TAIL);
    Message { role: "system".to_string(), content: message }
}

/// The system message that puts `task` to the model with `input`.
pub open spec fn extended_message(task: TaskKind, input: Seq<char>) -> MessageView {
    MessageView { role: "system"@, content: extended_content(instruction_text(task), input) }
}

/// Extends the instruction of `task` with `input`.
pub fn extend(task: TaskKind, input: &str) -> (message: Message)
    ensures
        message@ == extended_message(task, input@),
{
    match task {
        TaskKind::ConvertUserInputToGoal => extend_ai_functions(convert_user_input_to_goal, input),
        TaskKind::PrintProjectScope => extend_ai_functions(print_project_scope, input),
        TaskKind::PrintSiteUrls => extend_ai_functions(print_site_urls, input),
        TaskKind::PrintBackendWebserverCode => extend_ai_functions(
            print_backend_webserver_code,
            input,
        ),
        TaskKind::PrintFixedCode => extend_ai_functions(print_fixed_code, input),
        TaskKind::PrintRestApiEndpoints => extend_ai_functions(print_rest_api_endpoints, input),
    }
}

/// An extended text holds the instruction and the input, each verbatim.
pub proof fn lemma_extended_content_holds_both(instruction: Seq<char>, input: Seq<char>)
    ensures
        contains_text(extended_content(instruction, input), instruction),
        contains_text(extended_content(instruction, input), input),
{
    let whole = extended_content(instruction, input);
    let at_instruction = EXTENSION_HEAD@.len() as int;
    let at_input = at_instruction + instruction.len() + EXTENSION_BODY@.len();
    assert(whole.subrange(at_instruction, at_instruction + instruction.len()) =~= instruction);
    assert(whole.subrange(at_input, at_input + input.len()) =~= input);
}

/// Whatever the task and the input, the extended message is spoken by the
/// system and holds both the task's instruction text and the input verbatim.
pub proof fn lemma_extend_keeps_instruction_and_input(task: TaskKind, input: Seq<char>)
    ensures
        extended_message(task, input).role == "system"@,
        contains_text(extended_message(task, input).content, instruction_text(task)),
        contains_text(extended_message(task, input).content, input),
{
    lemma_extended_content_holds_both(instruction_text(task), input);
}

/// A request to the language model, ready to be sent: the notice to show
/// and the conversation to send.
#[derive(Debug)]
pub struct TaskRequest {
    pub notice: AgentNotice,
    pub messages: Vec<Message>,
}

/// Mathematical model of a [`TaskRequest`].
pub struct TaskRequestView {
    pub notice: AgentNoticeView,
    pub messages: Seq<MessageView>,
}

impl View for TaskRequest {
    type V = TaskRequestView;

    open spec fn view(&self) -> TaskRequestView {
        TaskRequestView { notice: self.notice@, messages: conversation(self.messages@) }
    }
}

/// The request by which the agent at `position` puts `task` to the model
/// with `context`, announcing it as `operation`.
pub open spec fn task_request(
    context: Seq<char>,
    position: Seq<char>,
    operation: Seq<char>,
    task: TaskKind,
) -> TaskRequestView {
    TaskRequestView {
        notice: AgentNoticeView {
            command: PrintCommand::AICall,
            position: position,
            statement: operation,
        },
        messages: seq![extended_message(task, context)],
    }
}

/// Prepares a task for the language model: the extended message, alone in
/// its conversation, and the notice that the call is being made. Showing
/// the notice and sending the conversation are left to the caller.
pub fn ai_task_request(
    msg_context: String,
    agent_position: &str,
    agent_operation: &str,
    function_pass: TaskKind,
) -> (request: TaskRequest)
    ensures
        request@ == task_request(msg_context@, agent_position@, agent_operation@, function_pass),
{
    let extended_msg = extend(function_pass, msg_context.as_str());
    let notice = PrintCommand::AICall.agent_message(agent_position, agent_operation);
    let mut messages: Vec<Message> = Vec::new();
    messages.push(extended_msg);
    assert(conversation(messages@) =~= seq![extended_message(function_pass, msg_context@)]);
    TaskRequest { notice, messages }
}

} // verus!

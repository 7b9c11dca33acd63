//! Chat messages and the shapes exchanged with the completion service.

use vstd::prelude::*;

verus! {

/// One entry of a conversation.
#[derive(Debug, Clone)]
pub struct Message {
    pub role: String,
    pub content: String,
}

/// Mathematical model of a [`Message`].
pub struct MessageView {
    pub role: Seq<char>,
    pub content: Seq<char>,
}

impl View for Message {
    type V = MessageView;

    open spec fn view(&self) -> MessageView {
        MessageView { role: self.role@, content: self.content@ }
    }
}

/// The three speakers a conversation knows.
pub open spec fn is_known_role(role: Seq<char>) -> bool {
    role == "system"@ || role == "user"@ || role == "assistant"@
}

/// The model of a whole conversation.
pub open spec fn conversation(messages: Seq<Message>) -> Seq<MessageView> {
    messages.map_values(|m: Message| m@)
}

impl Message {
    /// A message spoken by the system.
    pub fn system(content: String) -> (m: Message)
        ensures
            m@ == (MessageView { role: "system"@, content: content@ }),
            is_known_role(m@.role),
    {
        Message { role: "system".to_string(), content }
    }

    /// A message spoken by the user.
    pub fn user(content: String) -> (m: Message)
        ensures
            m@ == (MessageView { role: "user"@, content: content@ }),
            is_known_role(m@.role),
    {
        Message { role: "user".to_string(), content }
    }

    /// A message spoken by the model.
    pub fn assistant(content: String) -> (m: Message)
        ensures
            m@ == (MessageView { role: "assistant"@, content: content@ }),
            is_known_role(m@.role),
    {
        Message { role: "assistant".to_string(), content }
    }
}

/// The body of a completion request: which model is asked, and the
/// conversation put to it.
#[derive(Debug)]
pub struct ChatCompletion {
    pub model: String,
    pub messages: Vec<Message>,
}

/// Mathematical model of a [`ChatCompletion`].
pub struct ChatCompletionView {
    pub model: Seq<char>,
    pub messages: Seq<MessageView>,
}

impl View for ChatCompletion {
    type V = ChatCompletionView;

    open spec fn view(&self) -> ChatCompletionView {
        ChatCompletionView { model: self.model@, messages: conversation(self.messages@) }
    }
}

/// The message of one choice of a response.
#[derive(Debug)]
pub struct APIMessage {
    pub content: String,
}

/// One choice of a response.
#[derive(Debug)]
pub struct APIChoice {
    pub message: APIMessage,
}

/// What the completion service answers: the choices it offers, in its
/// order.
#[derive(Debug)]
pub struct APIResponse {
    pub choices: Vec<APIChoice>,
}

/// The texts of the choices of a response, in its order.
pub open spec fn choice_texts(choices: Seq<APIChoice>) -> Seq<Seq<char>> {
    choices.map_values(|c: APIChoice| c.message.content@)
}

impl View for APIResponse {
    type V = Seq<Seq<char>>;

    open spec fn view(&self) -> Seq<Seq<char>> {
        choice_texts(self.choices@)
    }
}

} // verus!

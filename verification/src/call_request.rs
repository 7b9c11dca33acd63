//! The gateway to the language model: what is sent, what is made of the
//! answer, and when a failed request is tried again. Sending is the
//! caller's; each attempt is reported here and answered with what to do
//! next.

use vstd::prelude::*;
use crate::errors::ErrorKind;
use crate::llm::{
    conversation, APIResponse, ChatCompletion, ChatCompletionView, Message, MessageView,
};

verus! {

/// The model that every request names.
pub const MODEL: &'static str = "o4-mini";

/// Where requests are sent.
pub const COMPLETIONS_URL: &'static str = "https://api.openai.com/v1/chat/completions";

/// What precedes the key in the authorization header.
pub const BEARER: &'static str = "Bearer ";

/// A credential that the process configuration lacks.
#[derive(Debug, Clone, Copy, PartialEq, Eq, Structural)]
pub enum ConfigError {
    MissingApiKey,
    MissingOrganization,
}

/// The two credentials that every request carries.
#[derive(Debug)]
pub struct Credentials {
    pub api_key: String,
    pub api_org: String,
}

impl Credentials {
    /// Takes the credentials as the configuration gave them. Both are
    /// required; where both are missing, the key is the one reported.
    pub fn from_config(api_key: Option<String>, api_org: Option<String>) -> (loaded: Result<
        Credentials,
        ConfigError,
    >)
        ensures
            match loaded {
                Ok(credentials) => api_key == Some(credentials.api_key) && api_org == Some(
                    credentials.api_org,
                ),
                Err(ConfigError::MissingApiKey) => api_key is None,
                Err(ConfigError::MissingOrganization) => api_key is Some && api_org is None,
            },
    {
        match api_key {
            None => Err(ConfigError::MissingApiKey),
            Some(api_key) => match api_org {
                None => Err(ConfigError::MissingOrganization),
                Some(api_org) => Ok(Credentials { api_key, api_org }),
            },
        }
    }

    /// The value of the authorization header.
    pub fn authorization(&self) -> (value: String)
        ensures
            value@ == BEARER@ + self.api_key@,
    {
        String::from_str(BEARER).concat(self.api_key.as_str())
    }
}

/// The request body for a conversation.
pub fn chat_completion(messages: Vec<Message>) -> (request: ChatCompletion)
    ensures
        request@ == (ChatCompletionView { model: MODEL@, messages: conversation(messages@) }),
{
    ChatCompletion { model: String::from_str(MODEL), messages }
}

/// The text of the first choice, where there is a choice.
pub open spec fn first_choice(choices: Seq<Seq<char>>) -> Option<Seq<char>> {
    if choices.len() > 0 {
        Some(choices[0])
    } else {
        None
    }
}

impl APIResponse {
    /// The text of the first choice of the response, or `None` where the
    /// response offers no choice.
    pub fn first_choice_text(&self) -> (text: Option<String>)
        ensures
            match text {
                Some(text) => first_choice(self@) == Some(text@),
                None => first_choice(self@) is None,
            },
    {
        if self.choices.len() > 0 {
            Some(self.choices[0].message.content.clone())
        } else {
            None
        }
    }
}

/// What came of sending the request once.
#[derive(Debug)]
pub enum Attempt {
    /// The service answered with success, and this is its response.
    Answered(APIResponse),
    /// The transport failed, or the service answered without success.
    Failed,
}

/// Mathematical model of an [`Attempt`]: the choice texts of the answer.
pub enum AttemptView {
    Answered(Seq<Seq<char>>),
    Failed,
}

impl View for Attempt {
    type V = AttemptView;

    open spec fn view(&self) -> AttemptView {
        match self {
            Attempt::Answered(response) => AttemptView::Answered(response@),
            Attempt::Failed => AttemptView::Failed,
        }
    }
}

/// The text that an attempt yields. An answer without a choice yields none
/// and counts as a failure of the attempt.
pub open spec fn attempt_text(attempt: AttemptView) -> Option<Seq<char>> {
    match attempt {
        AttemptView::Answered(choices) => first_choice(choices),
        AttemptView::Failed => None,
    }
}

/// Where a call to the gateway stands.
#[derive(Debug, Clone, Copy, PartialEq, Eq, Structural)]
pub enum GatewayState {
    /// The request is out for the first time.
    FirstAttempt,
    /// The first attempt failed and the request is out again.
    Retry,
    /// The call has returned a text.
    Returned,
    /// Both attempts failed.
    GaveUp,
}

/// What the caller does after reporting an attempt.
#[derive(Debug)]
pub enum GatewayAction {
    /// Hand this text to whoever made the call.
    Return(String),
    /// Send the same request once more.
    SendAgain,
    /// Report the failure: it is fatal.
    GiveUp,
    /// Nothing: the call had ended before.
    Closed,
}

/// Mathematical model of a [`GatewayAction`].
pub enum GatewayActionView {
    Return(Seq<char>),
    SendAgain,
    GiveUp,
    Closed,
}

impl View for GatewayAction {
    type V = GatewayActionView;

    open spec fn view(&self) -> GatewayActionView {
        match self {
            GatewayAction::Return(text) => GatewayActionView::Return(text@),
            GatewayAction::SendAgain => GatewayActionView::SendAgain,
            GatewayAction::GiveUp => GatewayActionView::GiveUp,
            GatewayAction::Closed => GatewayActionView::Closed,
        }
    }
}

/// One call to the gateway: the request, which never changes, how often it
/// has been sent, and where the call stands.
#[derive(Debug)]
pub struct Gateway {
    request: ChatCompletion,
    state: GatewayState,
    sends: u8,
}

/// Mathematical model of a [`Gateway`].
pub struct GatewayView {
    pub request: ChatCompletionView,
    pub state: GatewayState,
    pub sends: nat,
}

impl View for Gateway {
    type V = GatewayView;

    closed spec fn view(&self) -> GatewayView {
        GatewayView { request: self.request@, state: self.state, sends: self.sends as nat }
    }
}

/// A call as it is opened: the request is out once.
pub open spec fn opened(messages: Seq<MessageView>) -> GatewayView {
    GatewayView {
        request: ChatCompletionView { model: MODEL@, messages },
        state: GatewayState::FirstAttempt,
        sends: 1,
    }
}

/// How a call goes on when an attempt is reported.
pub open spec fn gateway_step(call: GatewayView, attempt: AttemptView) -> (
    GatewayView,
    GatewayActionView,
) {
    match call.state {
        GatewayState::FirstAttempt => match attempt_text(attempt) {
            Some(text) => (
                GatewayView { state: GatewayState::Returned, ..call },
                GatewayActionView::Return(text),
            ),
            None => (
                GatewayView { state: GatewayState::Retry, sends: call.sends + 1, ..call },
                GatewayActionView::SendAgain,
            ),
        },
        GatewayState::Retry => match attempt_text(attempt) {
            Some(text) => (
                GatewayView { state: GatewayState::Returned, ..call },
                GatewayActionView::Return(text),
            ),
            None => (GatewayView { state: GatewayState::GaveUp, ..call }, GatewayActionView::GiveUp),
        },
        GatewayState::Returned => (call, GatewayActionView::Closed),
        GatewayState::GaveUp => (call, GatewayActionView::Closed),
    }
}

/// The number of sends that belongs to each state of a call.
pub open spec fn sends_fit(call: GatewayView) -> bool {
    match call.state {
        GatewayState::FirstAttempt => call.sends == 1,
        GatewayState::Retry => call.sends == 2,
        GatewayState::Returned => call.sends == 1 || call.sends == 2,
        GatewayState::GaveUp => call.sends == 2,
    }
}

impl Gateway {
    /// Well-formedness: the count of sends fits the state.
    pub open spec fn wf(&self) -> bool {
        sends_fit(self@)
    }

    /// Opens a call. The request is to be sent once now.
    pub fn new(messages: Vec<Message>) -> (call: Gateway)
        ensures
            call.wf(),
            call@ == opened(conversation(messages@)),
    {
        Gateway { request: chat_completion(messages), state: GatewayState::FirstAttempt, sends: 1 }
    }

    /// The request of the call, the same at every attempt.
    pub fn request(&self) -> (request: &ChatCompletion)
        ensures
            request@ == self@.request,
    {
        &self.request
    }

    /// Where the call stands.
    pub fn state(&self) -> (state: GatewayState)
        ensures
            state == self@.state,
    {
        self.state
    }

    /// How often the request has been due to be sent.
    pub fn sends(&self) -> (sends: u8)
        ensures
            sends == self@.sends,
    {
        self.sends
    }

    /// The failure that the call surfaces: the transient gateway error,
    /// once the call has given up, and none before.
    pub fn failure(&self) -> (failure: Option<ErrorKind>)
        ensures
            failure == if self@.state == GatewayState::GaveUp {
                Some(ErrorKind::TransientGateway)
            } else {
                None
            },
    {
        match self.state {
            GatewayState::GaveUp => Some(ErrorKind::TransientGateway),
            _ => None,
        }
    }

    /// Reports what came of the attempt that was out, and tells what to do
    /// next.
    pub fn step(&mut self, attempt: Attempt) -> (action: GatewayAction)
        requires
            old(self).wf(),
        ensures
            final(self).wf(),
            (final(self)@, action@) == gateway_step(old(self)@, attempt@),
    {
        let text = match attempt {
            Attempt::Answered(response) => response.first_choice_text(),
            Attempt::Failed => None,
        };
        match self.state {
            GatewayState::FirstAttempt => match text {
                Some(text) => {
                    self.state = GatewayState::Returned;
                    GatewayAction::Return(text)
                },
                None => {
                    self.state = GatewayState::Retry;
                    self.sends = 2;
                    GatewayAction::SendAgain
                },
            },
            GatewayState::Retry => match text {
                Some(text) => {
                    self.state = GatewayState::Returned;
                    GatewayAction::Return(text)
                },
                None => {
                    self.state = GatewayState::GaveUp;
                    GatewayAction::GiveUp
                },
            },
            GatewayState::Returned => GatewayAction::Closed,
            GatewayState::GaveUp => GatewayAction::Closed,
        }
    }
}

/// A call whose first attempt is answered returns the text of the first
/// choice, and the request has been sent once.
pub proof fn lemma_first_choice_is_returned(messages: Seq<MessageView>, choices: Seq<Seq<char>>)
    requires
        messages.len() > 0,
        choices.len() > 0,
    ensures
        gateway_step(opened(messages), AttemptView::Answered(choices)).1
            == GatewayActionView::Return(choices[0]),
        gateway_step(opened(messages), AttemptView::Answered(choices)).0.sends == 1,
        gateway_step(opened(messages), AttemptView::Answered(choices)).0.state
            == GatewayState::Returned,
{
}

/// A call whose first attempt fails is sent exactly once more, with the
/// same request. What the second attempt yields ends the call: its text is
/// returned, or the call gives up. Nothing that is reported after that
/// causes another send.
pub proof fn lemma_exactly_one_retry(
    messages: Seq<MessageView>,
    first: AttemptView,
    second: AttemptView,
    later: AttemptView,
)
    requires
        messages.len() > 0,
        attempt_text(first) is None,
    ensures
        ({
            let (retrying, again) = gateway_step(opened(messages), first);
            let (ended, verdict) = gateway_step(retrying, second);
            let (after, ignored) = gateway_step(ended, later);
            &&& again == GatewayActionView::SendAgain
            &&& retrying.sends == 2
            &&& retrying.request == opened(messages).request
            &&& verdict == match attempt_text(second) {
                Some(text) => GatewayActionView::Return(text),
                None => GatewayActionView::GiveUp,
            }
            &&& ended.sends == 2
            &&& ended.request == opened(messages).request
            &&& ignored == GatewayActionView::Closed
            &&& after == ended
        }),
{
}

/// A whole call: where it stands after a sequence of attempts.
pub open spec fn gateway_run(call: GatewayView, attempts: Seq<AttemptView>) -> GatewayView
    decreases attempts.len(),
{
    if attempts.len() == 0 {
        call
    } else {
        gateway_step(gateway_run(call, attempts.drop_last()), attempts.last()).0
    }
}

/// However many attempts are reported to a call, its request stays the
/// same and is sent twice at most: there is never more than one retry.
pub proof fn lemma_never_more_than_one_retry(
    messages: Seq<MessageView>,
    attempts: Seq<AttemptView>,
)
    ensures
        sends_fit(gateway_run(opened(messages), attempts)),
        gateway_run(opened(messages), attempts).sends <= 2,
        gateway_run(opened(messages), attempts).request == opened(messages).request,
    decreases attempts.len(),
{
    if attempts.len() > 0 {
        lemma_never_more_than_one_retry(messages, attempts.drop_last());
    }
}

} // verus!

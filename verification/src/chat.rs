use crate::http_error::{body_detail, failure_prefix, format_http_error, http_error_text};
use crate::decimal::decimal_text;
use crate::json::{json_document, Json};
use crate::retry::{
    backoff_duration, backoff_ms, parse_retry_after_ms, retry_after_ms, retryable_status,
    should_retry, MAX_ATTEMPTS,
};
use crate::text::{chars_of, lemma_strip_idempotent, string_of, strip_bounds, trim, CharClass};
use vstd::prelude::*;
use vstd::string::*;

verus! {

/// One message of a prompt: who speaks, and what is said.
#[derive(Debug)]
pub struct Message {
    pub role: String,
    pub content: String,
}

impl Message {
    /// A message with the given role and content.
    pub fn new(role: &str, content: String) -> (message: Message)
        ensures
            message.role@ == role@,
            message.content == content,
    {
        Message { role: String::from_str(role), content }
    }
}

/// The body of one request to the chat-completion endpoint. It is never streamed.
#[derive(Debug)]
pub struct ChatRequest {
    pub model: String,
    pub messages: Vec<Message>,
    pub stream: bool,
}

impl ChatRequest {
    /// The request for a model and a prompt.
    pub fn new(model: &str, messages: Vec<Message>) -> (request: ChatRequest)
        ensures
            request.model@ == model@,
            request.messages == messages,
            !request.stream,
    {
        ChatRequest { model: String::from_str(model), messages, stream: false }
    }
}

/// Where a call to the endpoint stands.
#[derive(Debug, Clone, Copy, PartialEq, Eq)]
pub enum ChatState {
    /// The request of attempt `attempt` is on its way.
    Sending { attempt: usize },
    /// A response with a success status came; its body is being decoded.
    ReadingReply,
    /// A response with a failure status came; its body is being read.
    ReadingFailure { attempt: usize, status: u16, retry_after_ms: Option<u64> },
    /// The call waits before attempt `next_attempt`.
    Waiting { next_attempt: usize },
    /// The call is over.
    Done,
}

/// What the transport reports back to a call.
#[derive(Debug)]
pub enum ChatEvent {
    /// No response came; the text describes the transport's error.
    TransportFailed(String),
    /// A response came, with this status and this retry-after header.
    ResponseHead { status: u16, retry_after: Option<String> },
    /// The body of a success response as JSON, or the description of why it could not be
    /// decoded.
    ReplyBody(Result<Json, String>),
    /// The body of a failure response as text, empty where it could not be read.
    FailureBody(String),
    /// The wait is over.
    Waited,
}

/// What the transport is to do next for a call.
#[derive(Debug, PartialEq, Eq)]
pub enum ChatAction {
    /// Send the request.
    Send,
    /// Decode the body of the response as JSON.
    ReadReply,
    /// Read the body of the response as text.
    ReadFailure,
    /// Wait this many milliseconds.
    Wait(u64),
    /// Hand this outcome to the caller.
    Finish(Result<String, String>),
}

/// An action, with texts as sequences of characters.
pub enum ActionView {
    Send,
    ReadReply,
    ReadFailure,
    Wait(u64),
    Finish(Result<Seq<char>, Seq<char>>),
}

impl View for ChatAction {
    type V = ActionView;

    open spec fn view(&self) -> ActionView {
        match self {
            ChatAction::Send => ActionView::Send,
            ChatAction::ReadReply => ActionView::ReadReply,
            ChatAction::ReadFailure => ActionView::ReadFailure,
            ChatAction::Wait(ms) => ActionView::Wait(*ms),
            ChatAction::Finish(Ok(content)) => ActionView::Finish(Ok(content@)),
            ChatAction::Finish(Err(message)) => ActionView::Finish(Err(message@)),
        }
    }
}

/// The message for a successful response without content.
pub open spec fn empty_reply_message() -> Seq<char> {
    "empty AI response"@
}

/// How the message for a transport failure begins.
pub open spec fn transport_failure_prefix() -> Seq<char> {
    "请求失败: "@
}

/// How the message for a body that could not be decoded begins.
pub open spec fn decode_failure_prefix() -> Seq<char> {
    "解析响应失败: "@
}

/// The message for a call that ends without an outcome of its own.
pub open spec fn exhausted_message() -> Seq<char> {
    "请求失败"@
}

/// Whether a status reports success.
pub open spec fn success_status(status: u16) -> bool {
    200 <= status < 300
}

/// The text at `choices[0].message.content` of a reply, trimmed; empty where there is none.
pub open spec fn reply_content(json: Json) -> Seq<char> {
    let content = match json.member("choices"@) {
        Some(choices) => match choices.item(0) {
            Some(choice) => match choice.member("message"@) {
                Some(message) => match message.member("content"@) {
                    Some(content) => content.text(),
                    None => None,
                },
                None => None,
            },
            None => None,
        },
        None => None,
    };
    match content {
        Some(text) => trim(text),
        None => Seq::<char>::empty(),
    }
}

/// The outcome of a call whose response was a success with this body.
pub open spec fn reply_outcome(json: Json) -> Result<Seq<char>, Seq<char>> {
    if reply_content(json).len() == 0 {
        Err(empty_reply_message())
    } else {
        Ok(reply_content(json))
    }
}

/// The next state and the next action of a call, for its state and what the transport
/// reported.
///
/// A transport failure is retried while attempts are left, after the wait for no hint. A
/// success is never retried: its content is the outcome, or an error where the body cannot
/// be decoded or holds no content. A failure status is retried where the status is worth it
/// and attempts are left, after the wait for the server's hint; else its message is the
/// outcome. A report that does not fit the state ends the call.
pub open spec fn next_step(state: ChatState, event: ChatEvent) -> (ChatState, ActionView) {
    match (state, event) {
        (ChatState::Sending { attempt }, ChatEvent::TransportFailed(error)) => {
            if attempt < MAX_ATTEMPTS {
                (
                    ChatState::Waiting { next_attempt: (attempt + 1) as usize },
                    ActionView::Wait(backoff_ms(attempt as nat, None) as u64),
                )
            } else {
                (ChatState::Done, ActionView::Finish(Err(transport_failure_prefix() + error@)))
            }
        },
        (ChatState::Sending { attempt }, ChatEvent::ResponseHead { status, retry_after }) => {
            if success_status(status) {
                (ChatState::ReadingReply, ActionView::ReadReply)
            } else {
                (
                    ChatState::ReadingFailure {
                        attempt,
                        status,
                        retry_after_ms: retry_after_ms(
                            match retry_after {
                                Some(value) => Some(value@),
                                None => None,
                            },
                        ),
                    },
                    ActionView::ReadFailure,
                )
            }
        },
        (ChatState::ReadingReply, ChatEvent::ReplyBody(Ok(json))) => (
            ChatState::Done,
            ActionView::Finish(reply_outcome(json)),
        ),
        (ChatState::ReadingReply, ChatEvent::ReplyBody(Err(error))) => (
            ChatState::Done,
            ActionView::Finish(Err(decode_failure_prefix() + error@)),
        ),
        (
            ChatState::ReadingFailure { attempt, status, retry_after_ms },
            ChatEvent::FailureBody(body),
        ) => {
            if retryable_status(status) && attempt < MAX_ATTEMPTS {
                (
                    ChatState::Waiting { next_attempt: (attempt + 1) as usize },
                    ActionView::Wait(backoff_ms(attempt as nat, retry_after_ms) as u64),
                )
            } else {
                (
                    ChatState::Done,
                    ActionView::Finish(
                        Err(http_error_text(status, body@, body_detail(json_document(body@)))),
                    ),
                )
            }
        },
        (ChatState::Waiting { next_attempt }, ChatEvent::Waited) => (
            ChatState::Sending { attempt: next_attempt },
            ActionView::Send,
        ),
        _ => (ChatState::Done, ActionView::Finish(Err(exhausted_message()))),
    }
}

/// How a call begins: with the first attempt, whose request is to be sent.
pub fn chat_start() -> (step: (ChatState, ChatAction))
    ensures
        step.0 == (ChatState::Sending { attempt: 1 }),
        step.1 == ChatAction::Send,
{
    (ChatState::Sending { attempt: 1 }, ChatAction::Send)
}

/// The content of a reply, or the error for a reply without content.
pub fn content_of_reply(json: &Json) -> (outcome: Result<String, String>)
    ensures
        match outcome {
            Ok(content) => reply_outcome(*json) == Ok::<Seq<char>, Seq<char>>(content@),
            Err(message) => reply_outcome(*json) == Err::<Seq<char>, Seq<char>>(message@),
        },
{
    let content: Option<&str> = match json.get("choices") {
        Some(choices) => match choices.at(0) {
            Some(choice) => match choice.get("message") {
                Some(message) => match message.get("content") {
                    Some(content) => content.as_str(),
                    None => None,
                },
                None => None,
            },
            None => None,
        },
        None => None,
    };
    match content {
        Some(text) => {
            let chars = chars_of(text);
            assert(chars@.subrange(0, chars@.len() as int) =~= text@);
            let (lo, hi) = strip_bounds(&chars, 0, chars.len(), CharClass::Whitespace);
            if lo == hi {
                Err(String::from_str("empty AI response"))
            } else {
                Ok(string_of(&chars, lo, hi))
            }
        },
        None => Err(String::from_str("empty AI response")),
    }
}

/// The end of a call that got a report which does not fit its state.
fn out_of_turn() -> (step: (ChatState, ChatAction))
    ensures
        step.0 == ChatState::Done,
        step.1@ == ActionView::Finish(Err(exhausted_message())),
{
    (ChatState::Done, ChatAction::Finish(Err(String::from_str("请求失败"))))
}

/// Decides what a call does next.
pub fn chat_step(state: ChatState, event: ChatEvent) -> (step: (ChatState, ChatAction))
    ensures
        step.0 == next_step(state, event).0,
        step.1@ == next_step(state, event).1,
{
    match state {
        ChatState::Sending { attempt } => match event {
            ChatEvent::TransportFailed(error) => {
                if attempt < MAX_ATTEMPTS {
                    (
                        ChatState::Waiting { next_attempt: attempt + 1 },
                        ChatAction::Wait(backoff_duration(attempt, None)),
                    )
                } else {
                    let mut message = String::from_str("请求失败: ");
                    message.append(error.as_str());
                    (ChatState::Done, ChatAction::Finish(Err(message)))
                }
            },
            ChatEvent::ResponseHead { status, retry_after } => {
                if 200 <= status && status < 300 {
                    (ChatState::ReadingReply, ChatAction::ReadReply)
                } else {
                    let hint = match &retry_after {
                        Some(value) => parse_retry_after_ms(Some(value.as_str())),
                        None => parse_retry_after_ms(None),
                    };
                    (
                        ChatState::ReadingFailure { attempt, status, retry_after_ms: hint },
                        ChatAction::ReadFailure,
                    )
                }
            },
            _ => out_of_turn(),
        },
        ChatState::ReadingReply => match event {
            ChatEvent::ReplyBody(Ok(json)) => (
                ChatState::Done,
                ChatAction::Finish(content_of_reply(&json)),
            ),
            ChatEvent::ReplyBody(Err(error)) => {
                let mut message = String::from_str("解析响应失败: ");
                message.append(error.as_str());
                (ChatState::Done, ChatAction::Finish(Err(message)))
            },
            _ => out_of_turn(),
        },
        ChatState::ReadingFailure { attempt, status, retry_after_ms } => match event {
            ChatEvent::FailureBody(body) => {
                if should_retry(status) && attempt < MAX_ATTEMPTS {
                    (
                        ChatState::Waiting { next_attempt: attempt + 1 },
                        ChatAction::Wait(backoff_duration(attempt, retry_after_ms)),
                    )
                } else {
                    (
                        ChatState::Done,
                        ChatAction::Finish(Err(format_http_error(status, body.as_str()))),
                    )
                }
            },
            _ => out_of_turn(),
        },
        ChatState::Waiting { next_attempt } => match event {
            ChatEvent::Waited => (ChatState::Sending { attempt: next_attempt }, ChatAction::Send),
            _ => out_of_turn(),
        },
        ChatState::Done => out_of_turn(),
    }
}

/// The states that a call passes through: attempts are numbered from one up to the limit.
pub open spec fn on_course(state: ChatState) -> bool {
    match state {
        ChatState::Sending { attempt } => 1 <= attempt <= MAX_ATTEMPTS,
        ChatState::ReadingFailure { attempt, status, retry_after_ms } => 1 <= attempt
            <= MAX_ATTEMPTS && !success_status(status),
        ChatState::Waiting { next_attempt } => 2 <= next_attempt <= MAX_ATTEMPTS,
        ChatState::ReadingReply => true,
        ChatState::Done => true,
    }
}

/// A bound on the reports that a call can still take before it is over.
pub open spec fn steps_left(state: ChatState) -> nat {
    match state {
        ChatState::Sending { attempt } => (4 * (MAX_ATTEMPTS - attempt) + 3) as nat,
        ChatState::ReadingFailure { attempt, status, retry_after_ms } => (4 * (MAX_ATTEMPTS
            - attempt) + 2) as nat,
        ChatState::Waiting { next_attempt } => (4 * (MAX_ATTEMPTS - next_attempt) + 4) as nat,
        ChatState::ReadingReply => 1,
        ChatState::Done => 0,
    }
}

/// A call begins on course.
pub proof fn lemma_start_on_course()
    ensures
        on_course(ChatState::Sending { attempt: 1 }),
        steps_left(ChatState::Sending { attempt: 1 }) == 11,
{
}

/// Every report brings a call that is on course nearer to its end and keeps it on course:
/// a call is over after eleven reports at most, and numbers no attempt above the limit.
pub proof fn lemma_step_advances(state: ChatState, event: ChatEvent)
    requires
        on_course(state),
        state != ChatState::Done,
    ensures
        on_course(next_step(state, event).0),
        steps_left(next_step(state, event).0) < steps_left(state),
{
}

/// A request is sent again only after a wait, as the attempt that the wait was for.
pub proof fn lemma_send_follows_wait(state: ChatState, event: ChatEvent)
    requires
        next_step(state, event).1 == ActionView::Send,
    ensures
        state matches ChatState::Waiting { next_attempt } && next_step(state, event).0
            == (ChatState::Sending { attempt: next_attempt }),
{
}

/// A call ends exactly when it hands an outcome to the caller.
pub proof fn lemma_done_iff_finish(state: ChatState, event: ChatEvent)
    ensures
        next_step(state, event).0 == ChatState::Done <==> next_step(state, event).1 is Finish,
{
}

/// A response with a success status is never retried: whatever its body, the call ends.
pub proof fn lemma_success_is_final(attempt: usize, status: u16, retry_after: Option<String>, body:
    Result<Json, String>)
    requires
        success_status(status),
    ensures
        ({
            let read = next_step(
                ChatState::Sending { attempt },
                ChatEvent::ResponseHead { status, retry_after },
            );
            read.1 == ActionView::ReadReply && next_step(read.0, ChatEvent::ReplyBody(body)).0
                == ChatState::Done
        }),
{
}

/// The content that a call hands out is never empty and carries no white space at its ends.
pub proof fn lemma_content_is_trimmed(json: Json)
    ensures
        reply_outcome(json) matches Ok(content) ==> content.len() > 0 && trim(content) == content,
{
    if let Some(choices) = json.member("choices"@) {
        if let Some(choice) = choices.item(0) {
            if let Some(message) = choice.member("message"@) {
                if let Some(content) = message.member("content"@) {
                    if let Some(text) = content.text() {
                        lemma_strip_idempotent(text, CharClass::Whitespace);
                    }
                }
            }
        }
    }
}

/// A failure status that is not worth a retry ends the call at once, with a message that
/// names the status.
pub proof fn lemma_rejection_is_final(
    attempt: usize,
    status: u16,
    retry_after: Option<String>,
    body: String,
)
    requires
        !success_status(status),
        !retryable_status(status),
    ensures
        ({
            let read = next_step(
                ChatState::Sending { attempt },
                ChatEvent::ResponseHead { status, retry_after },
            );
            let end = next_step(read.0, ChatEvent::FailureBody(body));
            &&& read.1 == ActionView::ReadFailure
            &&& end.0 == ChatState::Done
            &&& end.1 matches ActionView::Finish(Err(message))
            &&& (failure_prefix() + decimal_text(status as nat)).is_prefix_of(message)
        }),
{
    crate::http_error::lemma_error_names_status(
        status,
        body@,
        body_detail(json_document(body@)),
    );
}

/// A failure status that is worth a retry, with attempts left, leads to a wait of the
/// backoff for the server's hint and then to the next attempt.
pub proof fn lemma_retry_waits(attempt: usize, status: u16, retry_after: Option<String>, body:
    String)
    requires
        retryable_status(status),
        1 <= attempt < MAX_ATTEMPTS,
    ensures
        ({
            let hint = retry_after_ms(
                match retry_after {
                    Some(value) => Some(value@),
                    None => None,
                },
            );
            let read = next_step(
                ChatState::Sending { attempt },
                ChatEvent::ResponseHead { status, retry_after },
            );
            let wait = next_step(read.0, ChatEvent::FailureBody(body));
            let again = next_step(wait.0, ChatEvent::Waited);
            &&& wait.1 == ActionView::Wait(backoff_ms(attempt as nat, hint) as u64)
            &&& again.0 == (ChatState::Sending { attempt: (attempt + 1) as usize })
            &&& again.1 == ActionView::Send
        }),
{
}

} // verus!

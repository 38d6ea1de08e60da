use fanqie_todo::chat::{
    chat_start, chat_step, content_of_reply, ChatAction, ChatEvent, ChatRequest, ChatState,
    Message,
};
use fanqie_todo::json::{parse_json, Json};

fn reply_with(content: &str) -> Json {
    let escaped = serde_json::to_string(content).unwrap();
    parse_json(&format!(
        "{{\"id\":\"1\",\"choices\":[{{\"index\":0,\"message\":{{\"role\":\"assistant\",\"content\":{}}}}}]}}",
        escaped
    ))
    .unwrap()
}

fn head(status: u16, retry_after: Option<&str>) -> ChatEvent {
    ChatEvent::ResponseHead { status, retry_after: retry_after.map(|v| v.to_string()) }
}

/// Runs a call over a script of reports and gives the waits, the number of requests sent
/// and the outcome.
fn run(script: Vec<ChatEvent>) -> (Vec<u64>, usize, Result<String, String>) {
    let (mut state, mut action) = chat_start();
    let mut waits = Vec::new();
    let mut sent = 0;
    let mut script = script.into_iter();
    loop {
        let event = match action {
            ChatAction::Finish(outcome) => {
                assert_eq!(state, ChatState::Done);
                assert!(script.next().is_none(), "the call ended before the script did");
                return (waits, sent, outcome);
            }
            ChatAction::Send => {
                sent += 1;
                script.next().expect("the script ended before the call did")
            }
            ChatAction::Wait(ms) => {
                waits.push(ms);
                ChatEvent::Waited
            }
            ChatAction::ReadReply | ChatAction::ReadFailure => {
                script.next().expect("the script ended before the call did")
            }
        };
        let step = chat_step(state, event);
        state = step.0;
        action = step.1;
    }
}

#[test]
fn message_and_request_hold_what_they_are_given() {
    let message = Message::new("user", "hi".to_string());
    assert_eq!(message.role, "user");
    assert_eq!(message.content, "hi");
    let request = ChatRequest::new("qwen-turbo", vec![message]);
    assert_eq!(request.model, "qwen-turbo");
    assert_eq!(request.messages.len(), 1);
    assert_eq!(request.messages[0].content, "hi");
    assert!(!request.stream);
}

#[test]
fn call_starts_by_sending_the_first_attempt() {
    assert_eq!(chat_start(), (ChatState::Sending { attempt: 1 }, ChatAction::Send));
}

#[test]
fn success_returns_the_trimmed_content() {
    let (waits, sent, outcome) =
        run(vec![head(200, None), ChatEvent::ReplyBody(Ok(reply_with("  hello \n")))]);
    assert_eq!(outcome, Ok("hello".to_string()));
    assert_eq!(sent, 1);
    assert!(waits.is_empty());
}

#[test]
fn two_rate_limits_then_success() {
    let (waits, sent, outcome) = run(vec![
        head(429, Some("1")),
        ChatEvent::FailureBody("{\"error\":{\"message\":\"slow down\"}}".to_string()),
        head(429, Some("1")),
        ChatEvent::FailureBody(String::new()),
        head(200, None),
        ChatEvent::ReplyBody(Ok(reply_with("the answer"))),
    ]);
    assert_eq!(outcome, Ok("the answer".to_string()));
    assert_eq!(waits, vec![1000, 1000]);
    assert_eq!(sent, 3);
}

#[test]
fn bad_request_fails_at_once() {
    let (waits, sent, outcome) = run(vec![
        head(400, None),
        ChatEvent::FailureBody("{\"error\":{\"message\":\"bad model\"}}".to_string()),
    ]);
    assert_eq!(outcome, Err("AI request failed (400): bad model".to_string()));
    assert!(outcome.unwrap_err().contains("400"));
    assert_eq!(sent, 1);
    assert!(waits.is_empty());
}

#[test]
fn server_errors_are_retried_with_quadratic_backoff_then_surface() {
    let (waits, sent, outcome) = run(vec![
        head(500, None),
        ChatEvent::FailureBody("boom 1".to_string()),
        head(503, None),
        ChatEvent::FailureBody("boom 2".to_string()),
        head(502, None),
        ChatEvent::FailureBody("boom 3".to_string()),
    ]);
    assert_eq!(outcome, Err("AI request failed (502): boom 3".to_string()));
    assert_eq!(waits, vec![400, 1600]);
    assert_eq!(sent, 3);
}

#[test]
fn hint_is_capped_at_the_ceiling() {
    let (waits, _, outcome) = run(vec![
        head(429, Some("3600")),
        ChatEvent::FailureBody(String::new()),
        head(408, Some("soon")),
        ChatEvent::FailureBody(String::new()),
        head(429, Some("2")),
        ChatEvent::FailureBody(String::new()),
    ]);
    assert_eq!(waits, vec![6000, 1600]);
    assert_eq!(outcome, Err("AI request failed (429)".to_string()));
}

#[test]
fn transport_failures_are_retried_then_surface() {
    let (waits, sent, outcome) = run(vec![
        ChatEvent::TransportFailed("connection refused".to_string()),
        ChatEvent::TransportFailed("timed out".to_string()),
        ChatEvent::TransportFailed("still down".to_string()),
    ]);
    assert_eq!(outcome, Err("请求失败: still down".to_string()));
    assert_eq!(waits, vec![400, 1600]);
    assert_eq!(sent, 3);
}

#[test]
fn transport_failure_then_success() {
    let (waits, sent, outcome) = run(vec![
        ChatEvent::TransportFailed("reset".to_string()),
        head(201, None),
        ChatEvent::ReplyBody(Ok(reply_with("ok"))),
    ]);
    assert_eq!(outcome, Ok("ok".to_string()));
    assert_eq!(waits, vec![400]);
    assert_eq!(sent, 2);
}

#[test]
fn empty_content_is_an_error_and_is_not_retried() {
    for reply in [
        reply_with(""),
        reply_with("  \n "),
        parse_json("{\"choices\":[]}").unwrap(),
        parse_json("{\"choices\":[{\"message\":{\"content\":null}}]}").unwrap(),
        parse_json("{\"choices\":[{\"message\":{\"content\":7}}]}").unwrap(),
        parse_json("{\"choices\":{\"0\":{\"message\":{\"content\":\"x\"}}}}").unwrap(),
        parse_json("[]").unwrap(),
    ] {
        let (waits, sent, outcome) = run(vec![head(200, None), ChatEvent::ReplyBody(Ok(reply))]);
        assert_eq!(outcome, Err("empty AI response".to_string()));
        assert_eq!(sent, 1);
        assert!(waits.is_empty());
    }
}

#[test]
fn undecodable_body_is_an_error_and_is_not_retried() {
    let (waits, sent, outcome) = run(vec![
        head(200, None),
        ChatEvent::ReplyBody(Err("error decoding response body".to_string())),
    ]);
    assert_eq!(outcome, Err("解析响应失败: error decoding response body".to_string()));
    assert_eq!(sent, 1);
    assert!(waits.is_empty());
}

#[test]
fn only_the_first_choice_counts() {
    let reply = parse_json(
        "{\"choices\":[{\"message\":{\"content\":\"first\"}},{\"message\":{\"content\":\"second\"}}]}",
    )
    .unwrap();
    assert_eq!(content_of_reply(&reply), Ok("first".to_string()));
}

#[test]
fn statuses_from_200_to_299_are_successes() {
    for status in [200u16, 204, 299] {
        let step = chat_step(ChatState::Sending { attempt: 1 }, head(status, None));
        assert_eq!(step, (ChatState::ReadingReply, ChatAction::ReadReply));
    }
    for status in [100u16, 199, 300, 404, 500] {
        let step = chat_step(ChatState::Sending { attempt: 2 }, head(status, Some("2")));
        assert_eq!(
            step,
            (
                ChatState::ReadingFailure { attempt: 2, status, retry_after_ms: Some(2000) },
                ChatAction::ReadFailure
            )
        );
    }
}

#[test]
fn third_attempt_is_final() {
    let state = ChatState::ReadingFailure { attempt: 3, status: 429, retry_after_ms: Some(1000) };
    let step = chat_step(state, ChatEvent::FailureBody("busy".to_string()));
    assert_eq!(
        step,
        (ChatState::Done, ChatAction::Finish(Err("AI request failed (429): busy".to_string())))
    );
    let step = chat_step(
        ChatState::Sending { attempt: 3 },
        ChatEvent::TransportFailed("down".to_string()),
    );
    assert_eq!(step, (ChatState::Done, ChatAction::Finish(Err("请求失败: down".to_string()))));
}

#[test]
fn waiting_leads_to_the_next_attempt() {
    let step = chat_step(ChatState::Waiting { next_attempt: 2 }, ChatEvent::Waited);
    assert_eq!(step, (ChatState::Sending { attempt: 2 }, ChatAction::Send));
}

#[test]
fn report_out_of_turn_ends_the_call() {
    let end = (ChatState::Done, ChatAction::Finish(Err("请求失败".to_string())));
    assert_eq!(chat_step(ChatState::Sending { attempt: 1 }, ChatEvent::Waited), end);
    assert_eq!(
        chat_step(ChatState::Sending { attempt: 1 }, ChatEvent::FailureBody(String::new())),
        end
    );
    assert_eq!(chat_step(ChatState::ReadingReply, head(200, None)), end);
    assert_eq!(
        chat_step(
            ChatState::ReadingFailure { attempt: 1, status: 500, retry_after_ms: None },
            ChatEvent::ReplyBody(Ok(Json::Null))
        ),
        end
    );
    assert_eq!(
        chat_step(ChatState::Waiting { next_attempt: 2 }, ChatEvent::TransportFailed(String::new())),
        end
    );
    assert_eq!(chat_step(ChatState::Done, ChatEvent::Waited), end);
}

#[test]
fn every_call_ends_within_eleven_reports() {
    let mut state = chat_start().0;
    let mut reports = 0;
    while state != ChatState::Done {
        let event = match state {
            ChatState::Sending { .. } => head(503, Some("0")),
            ChatState::ReadingFailure { .. } => ChatEvent::FailureBody(String::new()),
            ChatState::Waiting { .. } => ChatEvent::Waited,
            ChatState::ReadingReply => ChatEvent::ReplyBody(Ok(Json::Null)),
            ChatState::Done => unreachable!(),
        };
        state = chat_step(state, event).0;
        reports += 1;
        assert!(reports <= 11);
    }
    assert_eq!(reports, 8);
}

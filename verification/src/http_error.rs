use crate::decimal::{decimal_text, push_decimal};
use crate::json::{json_document, parse_json, Json};
use crate::text::{chars_of, push_chars, strip_bounds, trim, CharClass};
use vstd::prelude::*;
use vstd::string::*;

verus! {

/// The most characters of a raw body that a message quotes.
pub const BRIEF_LIMIT: usize = 300;

/// How every message for a rejected request begins, up to the status.
pub open spec fn failure_prefix() -> Seq<char> {
    "AI request failed ("@
}

/// The characters of an optional text.
pub open spec fn text_of(text: Option<&str>) -> Option<Seq<char>> {
    match text {
        Some(t) => Some(t@),
        None => None,
    }
}

/// The text at `error.message` of a document, else the text at `message`, if either is a
/// string.
pub open spec fn provider_message(json: Json) -> Option<Seq<char>> {
    let nested = match json.member("error"@) {
        Some(error) => match error.member("message"@) {
            Some(message) => message.text(),
            None => None,
        },
        None => None,
    };
    if nested.is_some() {
        nested
    } else {
        match json.member("message"@) {
            Some(message) => message.text(),
            None => None,
        }
    }
}

/// The provider's own message in a failure body, where the body is JSON that carries one.
pub open spec fn body_detail(parsed: Result<Json, Seq<char>>) -> Option<Seq<char>> {
    match parsed {
        Ok(json) => provider_message(json),
        Err(_) => None,
    }
}

/// The message for a rejected request.
///
/// With the provider's message it reads `AI request failed (<status>): <message>`. Without
/// one the trimmed body stands in for the message, cut to its first 300 characters and
/// followed by `...` where it is longer; an empty body leaves `AI request failed (<status>)`.
pub open spec fn http_error_text(status: u16, body: Seq<char>, detail: Option<Seq<char>>) -> Seq<
    char,
> {
    let head = failure_prefix() + decimal_text(status as nat);
    match detail {
        Some(message) => head + "): "@ + message,
        None => {
            let brief = trim(body);
            if brief.len() == 0 {
                head + ")"@
            } else if brief.len() > BRIEF_LIMIT {
                head + "): "@ + brief.subrange(0, BRIEF_LIMIT as int) + "..."@
            } else {
                head + "): "@ + brief
            }
        },
    }
}

/// Finds the provider's message in a failure body that was read as JSON.
pub fn provider_message_of(json: &Json) -> (found: Option<&str>)
    ensures
        text_of(found) == provider_message(*json),
{
    let nested = match json.get("error") {
        Some(error) => match error.get("message") {
            Some(message) => message.as_str(),
            None => None,
        },
        None => None,
    };
    if nested.is_some() {
        nested
    } else {
        match json.get("message") {
            Some(message) => message.as_str(),
            None => None,
        }
    }
}

/// Writes the message for a rejected request from its status, its body and the provider's
/// message, if the body carried one.
pub fn describe_http_error(status: u16, body: &str, detail: Option<&str>) -> (message: String)
    ensures
        message@ == http_error_text(status, body@, text_of(detail)),
{
    let mut message = String::from_str("AI request failed (");
    let mut digits: Vec<char> = Vec::new();
    push_decimal(&mut digits, status as u64);
    push_chars(&mut message, &digits, 0, digits.len());
    assert(digits@.subrange(0, digits@.len() as int) =~= decimal_text(status as nat));
    let ghost head = failure_prefix() + decimal_text(status as nat);
    assert(message@ == head);
    match detail {
        Some(text) => {
            message.append("): ");
            message.append(text);
        },
        None => {
            let chars = chars_of(body);
            assert(chars@.subrange(0, chars@.len() as int) =~= body@);
            let (lo, hi) = strip_bounds(&chars, 0, chars.len(), CharClass::Whitespace);
            if lo == hi {
                message.append(")");
            } else if hi - lo > BRIEF_LIMIT {
                message.append("): ");
                push_chars(&mut message, &chars, lo, lo + BRIEF_LIMIT);
                message.append("...");
                assert(chars@.subrange(lo as int, lo + BRIEF_LIMIT) =~= trim(body@).subrange(
                    0,
                    BRIEF_LIMIT as int,
                ));
            } else {
                message.append("): ");
                push_chars(&mut message, &chars, lo, hi);
            }
        },
    }
    message
}

/// Writes the message for a rejected request from its status and its body.
pub fn format_http_error(status: u16, body: &str) -> (message: String)
    ensures
        message@ == http_error_text(status, body@, body_detail(json_document(body@))),
{
    let parsed = parse_json(body);
    match &parsed {
        Ok(json) => describe_http_error(status, body, provider_message_of(json)),
        Err(_) => describe_http_error(status, body, None),
    }
}

/// Every message names the status, right after the opening words.
pub proof fn lemma_error_names_status(status: u16, body: Seq<char>, detail: Option<Seq<char>>)
    ensures
        (failure_prefix() + decimal_text(status as nat)).is_prefix_of(
            http_error_text(status, body, detail),
        ),
{
    let head = failure_prefix() + decimal_text(status as nat);
    let text = http_error_text(status, body, detail);
    assert(text.subrange(0, head.len() as int) =~= head);
}

} // verus!

use crate::chat::Message;
use crate::dates::{date_format, midnight_seconds, parse_date_to_timestamp, parsed_day, same_number};
use crate::decimal::{decimal_text, push_decimal};
use crate::extract::{extract_json, extracted_json};
use crate::json::{json_document, parse_json, Json};
use crate::text::{chars_of, push_chars, string_of, strip_bounds, trim, CharClass};
use vstd::prelude::*;
use vstd::string::*;

verus! {

/// One step of a task that was broken down.
#[derive(Debug, PartialEq)]
pub struct SubTask {
    pub title: String,
    pub priority: Option<i32>,
}

/// A subtask, its title as a sequence of characters.
pub struct SubTaskView {
    pub title: Seq<char>,
    pub priority: Option<i32>,
}

impl View for SubTask {
    type V = SubTaskView;

    open spec fn view(&self) -> SubTaskView {
        SubTaskView { title: self.title@, priority: self.priority }
    }
}

/// What was understood of a task written in plain language.
#[derive(Debug, PartialEq)]
pub struct ParseResult {
    pub title: String,
    pub priority: Option<i32>,
    pub due_date: Option<i64>,
    pub category: Option<String>,
}

/// A parse result, its texts as sequences of characters and its due date as a number.
pub struct ParseResultView {
    pub title: Seq<char>,
    pub priority: Option<i32>,
    pub due_date: Option<int>,
    pub category: Option<Seq<char>>,
}

impl View for ParseResult {
    type V = ParseResultView;

    open spec fn view(&self) -> ParseResultView {
        ParseResultView {
            title: self.title@,
            priority: self.priority,
            due_date: match self.due_date {
                Some(seconds) => Some(seconds as int),
                None => None,
            },
            category: match self.category {
                Some(category) => Some(category@),
                None => None,
            },
        }
    }
}

/// Why a document is not a list of subtasks. The number is the position of the element at
/// fault, counted from zero.
#[derive(Debug, Clone, Copy, PartialEq, Eq)]
pub enum ShapeError {
    /// The document is not an array.
    NotAList,
    /// An element is neither an object nor an array.
    NotASubtask(usize),
    /// An element written as an array does not hold a title and a priority and nothing more.
    WrongLength(usize),
    /// An element written as an object has no `title`.
    MissingTitle(usize),
    /// The title of an element is not a string.
    TitleNotText(usize),
    /// The priority of an element is neither null nor a whole number that fits `i32`.
    InvalidPriority(usize),
}

impl ShapeError {
    /// The description of the fault.
    pub open spec fn text(self) -> Seq<char> {
        match self {
            ShapeError::NotAList => "expected a JSON array"@,
            ShapeError::NotASubtask(index) => "item "@ + decimal_text(index as nat)
                + ": expected an object or an array"@,
            ShapeError::WrongLength(index) => "item "@ + decimal_text(index as nat)
                + ": expected an array of a title and a priority"@,
            ShapeError::MissingTitle(index) => "item "@ + decimal_text(index as nat)
                + ": missing field `title`"@,
            ShapeError::TitleNotText(index) => "item "@ + decimal_text(index as nat)
                + ": `title` is not a string"@,
            ShapeError::InvalidPriority(index) => "item "@ + decimal_text(index as nat)
                + ": `priority` is not a 32-bit integer"@,
        }
    }

    /// Describes the fault in words.
    pub fn describe(&self) -> (description: String)
        ensures
            description@ == self.text(),
    {
        match self {
            ShapeError::NotAList => String::from_str("expected a JSON array"),
            ShapeError::NotASubtask(index) => item_fault(
                *index,
                ": expected an object or an array",
            ),
            ShapeError::WrongLength(index) => item_fault(
                *index,
                ": expected an array of a title and a priority",
            ),
            ShapeError::MissingTitle(index) => item_fault(*index, ": missing field `title`"),
            ShapeError::TitleNotText(index) => item_fault(*index, ": `title` is not a string"),
            ShapeError::InvalidPriority(index) => item_fault(
                *index,
                ": `priority` is not a 32-bit integer",
            ),
        }
    }
}

/// The description of a fault of the element at `index`.
fn item_fault(index: usize, fault: &str) -> (description: String)
    ensures
        description@ == "item "@ + decimal_text(index as nat) + fault@,
{
    let mut description = String::from_str("item ");
    let mut digits: Vec<char> = Vec::new();
    push_decimal(&mut digits, index as u64);
    push_chars(&mut description, &digits, 0, digits.len());
    assert(digits@.subrange(0, digits@.len() as int) =~= decimal_text(index as nat));
    description.append(fault);
    description
}

/// The role under which the assistant is told what it is.
pub open spec fn system_role() -> Seq<char> {
    "system"@
}

/// The role under which the user's request is sent.
pub open spec fn user_role() -> Seq<char> {
    "user"@
}

/// What the assistant is told that it is, before a task is broken down.
pub open spec fn planner_introduction() -> Seq<char> {
    "你是一个任务规划助手。"@
}

/// The instructions for breaking a task down, up to the task itself.
pub open spec fn breakdown_instructions() -> Seq<char> {
    "你是一个任务规划助手。将用户的任务分解为具体、可执行的子任务。\n规则:\n1. 每个子任务应该是一个清晰的行动项\n2. 子任务数量控制在3-7个\n3. 按逻辑顺序排列\n4. 仅输出JSON数组,不要输出Markdown代码块/解释文字\n输出JSON格式: [{\"title\": \"子任务标题\", \"priority\": 1-3}]\n用户任务: "@
}

/// The instructions for reading a task written in plain language, up to the user's input.
pub open spec fn parse_instructions() -> Seq<char> {
    "从用户输入中提取任务信息,仅输出JSON(不要Markdown/解释文字):\n{\"title\": \"任务标题\", \"due_date\": \"YYYY-MM-DD或null\", \"priority\": 1-3, \"category\": \"分类或null\"}\n用户输入: "@
}

/// How the message for a reply that cannot be used begins.
pub open spec fn malformed_prefix() -> Seq<char> {
    "解析 AI 响应失败: "@
}

/// The message for a call that finds no API key.
pub open spec fn missing_key_message() -> Seq<char> {
    "请先在设置中配置 API Key"@
}

/// The message for a reply that cannot be used: what is wrong, and the text at fault.
pub open spec fn malformed_text(detail: Seq<char>, json_text: Seq<char>) -> Seq<char> {
    malformed_prefix() + detail + " ("@ + json_text + ")"@
}

/// The key for a call to the assistant, or the error for a setup without one.
pub fn require_api_key(api_key: Option<String>) -> (key: Result<String, String>)
    ensures
        match key {
            Ok(found) => api_key == Some(found),
            Err(message) => api_key.is_none() && message@ == missing_key_message(),
        },
{
    match api_key {
        Some(found) => Ok(found),
        None => Err(String::from_str("请先在设置中配置 API Key")),
    }
}

/// The prompt that asks for a task to be broken down: a system message, then the
/// instructions with the task.
pub fn breakdown_messages(task: &str) -> (messages: Vec<Message>)
    ensures
        messages@.len() == 2,
        messages@[0].role@ == system_role(),
        messages@[0].content@ == planner_introduction(),
        messages@[1].role@ == user_role(),
        messages@[1].content@ == breakdown_instructions() + task@,
{
    let mut prompt = String::from_str(
        "你是一个任务规划助手。将用户的任务分解为具体、可执行的子任务。\n规则:\n1. 每个子任务应该是一个清晰的行动项\n2. 子任务数量控制在3-7个\n3. 按逻辑顺序排列\n4. 仅输出JSON数组,不要输出Markdown代码块/解释文字\n输出JSON格式: [{\"title\": \"子任务标题\", \"priority\": 1-3}]\n用户任务: ",
    );
    prompt.append(task);
    let mut messages: Vec<Message> = Vec::new();
    messages.push(Message::new("system", String::from_str("你是一个任务规划助手。")));
    messages.push(Message::new("user", prompt));
    messages
}

/// The prompt that asks for a task in plain language to be read: the instructions with the
/// user's input, as one user message.
pub fn parse_messages(input: &str) -> (messages: Vec<Message>)
    ensures
        messages@.len() == 1,
        messages@[0].role@ == user_role(),
        messages@[0].content@ == parse_instructions() + input@,
{
    let mut prompt = String::from_str(
        "从用户输入中提取任务信息,仅输出JSON(不要Markdown/解释文字):\n{\"title\": \"任务标题\", \"due_date\": \"YYYY-MM-DD或null\", \"priority\": 1-3, \"category\": \"分类或null\"}\n用户输入: ",
    );
    prompt.append(input);
    let mut messages: Vec<Message> = Vec::new();
    messages.push(Message::new("user", prompt));
    messages
}

/// Writes the message for a reply that cannot be used.
pub fn describe_malformed(detail: &str, json_text: &str) -> (message: String)
    ensures
        message@ == malformed_text(detail@, json_text@),
{
    let mut message = String::from_str("解析 AI 响应失败: ");
    message.append(detail);
    message.append(" (");
    message.append(json_text);
    message.append(")");
    message
}

/// The priority that a member `priority` gives: none for a missing member or null, the
/// number for a whole number that fits `i32`. The outer nothing stands for any other member.
pub open spec fn subtask_priority(member: Option<Json>) -> Option<Option<i32>> {
    match member {
        None => Some(None),
        Some(Json::Null) => Some(None),
        Some(value) => match value.integer() {
            Some(n) => if i32::MIN <= n <= i32::MAX {
                Some(Some(n as i32))
            } else {
                None
            },
            None => None,
        },
    }
}

/// The member that a lookup found, as a value.
pub open spec fn found_member(member: Option<&Json>) -> Option<Json> {
    match member {
        Some(value) => Some(*value),
        None => None,
    }
}

/// The subtask that a title and a priority give, for the element at `index`.
pub open spec fn subtask_of(title: Json, priority: Option<Json>, index: usize) -> Result<
    SubTaskView,
    ShapeError,
> {
    match title.text() {
        None => Err(ShapeError::TitleNotText(index)),
        Some(text) => match subtask_priority(priority) {
            None => Err(ShapeError::InvalidPriority(index)),
            Some(priority) => Ok(SubTaskView { title: text, priority }),
        },
    }
}

/// The subtask that an array holds: its title, then its priority, and nothing more. The
/// elements are judged in their order.
pub open spec fn subtask_of_fields(fields: Seq<Json>, index: usize) -> Result<
    SubTaskView,
    ShapeError,
> {
    if fields.len() == 0 {
        Err(ShapeError::WrongLength(index))
    } else if fields[0].text().is_none() {
        Err(ShapeError::TitleNotText(index))
    } else if fields.len() == 1 {
        Err(ShapeError::WrongLength(index))
    } else if subtask_priority(Some(fields[1])).is_none() {
        Err(ShapeError::InvalidPriority(index))
    } else if fields.len() > 2 {
        Err(ShapeError::WrongLength(index))
    } else {
        subtask_of(fields[0], Some(fields[1]), index)
    }
}

/// The subtask that the element at `index` holds: an object with a string `title` and an
/// optional `priority`, whose other members are ignored, or an array of a title and a
/// priority.
pub open spec fn subtask_at(item: Json, index: usize) -> Result<SubTaskView, ShapeError> {
    match item {
        Json::Object(_) => match item.member("title"@) {
            None => Err(ShapeError::MissingTitle(index)),
            Some(title) => subtask_of(title, item.member("priority"@), index),
        },
        Json::Array(fields) => subtask_of_fields(fields@, index),
        _ => Err(ShapeError::NotASubtask(index)),
    }
}

/// The subtasks that the first `count` elements hold, in their order, or the fault of the
/// first element that holds none.
pub open spec fn subtasks_of(items: Seq<Json>, count: int) -> Result<Seq<SubTaskView>, ShapeError>
    decreases count,
{
    if count <= 0 {
        Ok(Seq::empty())
    } else {
        match subtasks_of(items, count - 1) {
            Err(fault) => Err(fault),
            Ok(before) => match subtask_at(items[count - 1], (count - 1) as usize) {
                Ok(subtask) => Ok(before.push(subtask)),
                Err(fault) => Err(fault),
            },
        }
    }
}

/// The subtasks that a document lists.
pub open spec fn listed_subtasks(json: Json) -> Result<Seq<SubTaskView>, ShapeError> {
    match json {
        Json::Array(items) => subtasks_of(items@, items@.len() as int),
        _ => Err(ShapeError::NotAList),
    }
}

/// The views of a list of subtasks.
pub open spec fn views_of(subtasks: Seq<SubTask>) -> Seq<SubTaskView> {
    Seq::new(subtasks.len(), |i: int| subtasks[i]@)
}

/// Reads the priority that a member gives.
fn priority_from(member: Option<&Json>) -> (priority: Option<Option<i32>>)
    ensures
        priority == subtask_priority(found_member(member)),
{
    match member {
        None => Some(None),
        Some(Json::Null) => Some(None),
        Some(value) => match value.as_i64() {
            Some(n) => if -2147483648 <= n && n <= 2147483647 {
                Some(Some(n as i32))
            } else {
                None
            },
            None => None,
        },
    }
}

/// Reads a subtask from its title and its priority.
fn subtask_with(title: &Json, priority: Option<&Json>, index: usize) -> (subtask: Result<
    SubTask,
    ShapeError,
>)
    ensures
        match subtask {
            Ok(found) => subtask_of(*title, found_member(priority), index) == Ok::<
                SubTaskView,
                ShapeError,
            >(found@),
            Err(fault) => subtask_of(*title, found_member(priority), index) == Err::<
                SubTaskView,
                ShapeError,
            >(fault),
        },
{
    match title.as_str() {
        None => Err(ShapeError::TitleNotText(index)),
        Some(text) => match priority_from(priority) {
            None => Err(ShapeError::InvalidPriority(index)),
            Some(priority) => Ok(SubTask { title: String::from_str(text), priority }),
        },
    }
}

/// Reads one subtask from the element at `index` of a list.
fn subtask_from(item: &Json, index: usize) -> (subtask: Result<SubTask, ShapeError>)
    ensures
        match subtask {
            Ok(found) => subtask_at(*item, index) == Ok::<SubTaskView, ShapeError>(found@),
            Err(fault) => subtask_at(*item, index) == Err::<SubTaskView, ShapeError>(fault),
        },
{
    match item {
        Json::Object(_) => match item.get("title") {
            None => Err(ShapeError::MissingTitle(index)),
            Some(title) => subtask_with(title, item.get("priority"), index),
        },
        Json::Array(fields) => {
            if fields.len() == 0 {
                Err(ShapeError::WrongLength(index))
            } else if fields[0].as_str().is_none() {
                Err(ShapeError::TitleNotText(index))
            } else if fields.len() == 1 {
                Err(ShapeError::WrongLength(index))
            } else if priority_from(Some(&fields[1])).is_none() {
                Err(ShapeError::InvalidPriority(index))
            } else if fields.len() > 2 {
                Err(ShapeError::WrongLength(index))
            } else {
                subtask_with(&fields[0], Some(&fields[1]), index)
            }
        },
        _ => Err(ShapeError::NotASubtask(index)),
    }
}

/// Reads the subtasks that a document lists, in their order.
pub fn subtasks_from_json(json: &Json) -> (subtasks: Result<Vec<SubTask>, ShapeError>)
    ensures
        match subtasks {
            Ok(list) => listed_subtasks(*json) == Ok::<Seq<SubTaskView>, ShapeError>(
                views_of(list@),
            ),
            Err(fault) => listed_subtasks(*json) == Err::<Seq<SubTaskView>, ShapeError>(fault),
        },
{
    match json {
        Json::Array(items) => {
            let mut list: Vec<SubTask> = Vec::new();
            let mut i: usize = 0;
            assert(views_of(list@) =~= Seq::<SubTaskView>::empty());
            while i < items.len()
                invariant
                    i <= items.len(),
                    listed_subtasks(*json) == subtasks_of(items@, items@.len() as int),
                    subtasks_of(items@, i as int) == Ok::<Seq<SubTaskView>, ShapeError>(
                        views_of(list@),
                    ),
                decreases items.len() - i,
            {
                let ghost before = views_of(list@);
                match subtask_from(&items[i], i) {
                    Ok(subtask) => {
                        list.push(subtask);
                        assert(views_of(list@) =~= before.push(subtask@));
                    },
                    Err(fault) => {
                        proof {
                            assert(subtasks_of(items@, i + 1) == Err::<
                                Seq<SubTaskView>,
                                ShapeError,
                            >(fault));
                            lemma_fault_stays(items@, i + 1, items@.len() as int);
                        }
                        return Err(fault);
                    },
                }
                i += 1;
            }
            Ok(list)
        },
        _ => Err(ShapeError::NotAList),
    }
}

/// A fault among the first elements of a list is the fault of every longer part of it.
pub proof fn lemma_fault_stays(items: Seq<Json>, count: int, more: int)
    requires
        count <= more,
        subtasks_of(items, count) is Err,
    ensures
        subtasks_of(items, more) == subtasks_of(items, count),
    decreases more - count,
{
    if count < more {
        lemma_fault_stays(items, count, more - 1);
    }
}

/// What a reply gives once its JSON fragment was read: the subtasks, or the message for a
/// fragment that is no JSON or lists no subtasks.
pub open spec fn breakdown_outcome(json_text: Seq<char>, parsed: Result<Json, Seq<char>>) -> Result<
    Seq<SubTaskView>,
    Seq<char>,
> {
    match parsed {
        Err(error) => Err(malformed_text(error, json_text)),
        Ok(json) => match listed_subtasks(json) {
            Ok(subtasks) => Ok(subtasks),
            Err(fault) => Err(malformed_text(fault.text(), json_text)),
        },
    }
}

/// The characters of what reading a text as JSON gave.
pub open spec fn document_view(parsed: Result<Json, String>) -> Result<Json, Seq<char>> {
    match parsed {
        Ok(json) => Ok(json),
        Err(error) => Err(error@),
    }
}

/// Whether `found` is the outcome `outcome` of breaking a task down.
pub open spec fn is_breakdown(found: Result<Vec<SubTask>, String>, outcome: Result<
    Seq<SubTaskView>,
    Seq<char>,
>) -> bool {
    match found {
        Ok(list) => outcome == Ok::<Seq<SubTaskView>, Seq<char>>(views_of(list@)),
        Err(message) => outcome == Err::<Seq<SubTaskView>, Seq<char>>(message@),
    }
}

/// Turns a JSON fragment, and what reading it as JSON gave, into subtasks.
pub fn decode_breakdown(json_text: &str, parsed: Result<Json, String>) -> (found: Result<
    Vec<SubTask>,
    String,
>)
    ensures
        is_breakdown(found, breakdown_outcome(json_text@, document_view(parsed))),
{
    match parsed {
        Err(error) => Err(describe_malformed(error.as_str(), json_text)),
        Ok(json) => match subtasks_from_json(&json) {
            Ok(list) => Ok(list),
            Err(fault) => {
                let detail = fault.describe();
                Err(describe_malformed(detail.as_str(), json_text))
            },
        },
    }
}

/// Reads the subtasks from the assistant's reply to a request to break a task down.
pub fn breakdown_task(reply: &str) -> (found: Result<Vec<SubTask>, String>)
    ensures
        is_breakdown(
            found,
            breakdown_outcome(extracted_json(reply@), json_document(extracted_json(reply@))),
        ),
{
    let json_text = extract_json(reply);
    let parsed = parse_json(json_text.as_str());
    decode_breakdown(json_text.as_str(), parsed)
}

/// The text of the member `key` of a document, where it is a string.
pub open spec fn member_text(json: Json, key: Seq<char>) -> Option<Seq<char>> {
    match json.member(key) {
        Some(value) => value.text(),
        None => None,
    }
}

/// The title that a document gives a task: its `title` trimmed, or the user's input where
/// that is empty or no string.
pub open spec fn parsed_title(json: Json, input: Seq<char>) -> Seq<char> {
    let title = match member_text(json, "title"@) {
        Some(text) => trim(text),
        None => Seq::<char>::empty(),
    };
    if title.len() == 0 {
        input
    } else {
        title
    }
}

/// The priority that a document gives a task: its `priority` cut to 32 bits, where that is
/// a whole number.
pub open spec fn parsed_priority(json: Json) -> Option<i32> {
    match json.member("priority"@) {
        Some(value) => match value.integer() {
            Some(n) => Some(n as i32),
            None => None,
        },
        None => None,
    }
}

/// The task that a document describes, with the due date that its `due_date` was read as.
pub open spec fn parsed_task(json: Json, due_date: Option<int>, input: Seq<char>)
    -> ParseResultView {
    ParseResultView {
        title: parsed_title(json, input),
        priority: parsed_priority(json),
        due_date,
        category: member_text(json, "category"@),
    }
}

/// The due date that a document gives a task: the midnight in UTC of the calendar date that
/// its `due_date` writes, where it writes one.
pub open spec fn parsed_due_date(json: Json) -> Option<int> {
    match member_text(json, "due_date"@) {
        Some(text) => midnight_seconds(parsed_day(text, date_format())),
        None => None,
    }
}

/// What a reply gives once its JSON fragment was read: the task, or the message for a
/// fragment that is no JSON. A member that is missing or of another type is left out.
pub open spec fn parse_outcome(
    json_text: Seq<char>,
    parsed: Result<Json, Seq<char>>,
    input: Seq<char>,
) -> Result<ParseResultView, Seq<char>> {
    match parsed {
        Err(error) => Err(malformed_text(error, json_text)),
        Ok(json) => Ok(parsed_task(json, parsed_due_date(json), input)),
    }
}

/// Whether `found` is the outcome `outcome` of reading a task.
pub open spec fn is_parse(found: Result<ParseResult, String>, outcome: Result<
    ParseResultView,
    Seq<char>,
>) -> bool {
    match found {
        Ok(task) => outcome == Ok::<ParseResultView, Seq<char>>(task@),
        Err(message) => outcome == Err::<ParseResultView, Seq<char>>(message@),
    }
}

/// Builds the task that a document describes, given the due date that was read from it.
pub fn task_from_json(json: &Json, due_date: Option<i64>, input: String) -> (task: ParseResult)
    ensures
        task@ == parsed_task(
            *json,
            match due_date {
                Some(seconds) => Some(seconds as int),
                None => None,
            },
            input@,
        ),
{
    let found: Option<String> = match json.get("title") {
        Some(value) => match value.as_str() {
            Some(text) => {
                let chars = chars_of(text);
                assert(chars@.subrange(0, chars@.len() as int) =~= text@);
                let (lo, hi) = strip_bounds(&chars, 0, chars.len(), CharClass::Whitespace);
                if lo == hi {
                    None
                } else {
                    Some(string_of(&chars, lo, hi))
                }
            },
            None => None,
        },
        None => None,
    };
    let title = match found {
        Some(title) => title,
        None => input,
    };
    let priority: Option<i32> = match json.get("priority") {
        Some(value) => match value.as_i64() {
            Some(n) => Some(#[verifier::truncate] (n as i32)),
            None => None,
        },
        None => None,
    };
    let category: Option<String> = match json.get("category") {
        Some(value) => match value.as_str() {
            Some(text) => Some(String::from_str(text)),
            None => None,
        },
        None => None,
    };
    ParseResult { title, priority, due_date, category }
}

/// Reads the due date of the task that a document describes.
pub fn due_date_from_json(json: &Json) -> (due_date: Option<i64>)
    ensures
        same_number(due_date, parsed_due_date(*json)),
{
    match json.get("due_date") {
        Some(value) => match value.as_str() {
            Some(text) => parse_date_to_timestamp(text),
            None => None,
        },
        None => None,
    }
}

/// Reads the task from the assistant's reply to a request to read the user's input.
pub fn parse_natural_language(reply: &str, input: String) -> (found: Result<ParseResult, String>)
    ensures
        is_parse(
            found,
            parse_outcome(
                extracted_json(reply@),
                json_document(extracted_json(reply@)),
                input@,
            ),
        ),
{
    let json_text = extract_json(reply);
    match parse_json(json_text.as_str()) {
        Err(error) => Err(describe_malformed(error.as_str(), json_text.as_str())),
        Ok(json) => {
            let due_date = due_date_from_json(&json);
            Ok(task_from_json(&json, due_date, input))
        },
    }
}

} // verus!

use fanqie_todo::commands::{
    breakdown_messages, breakdown_task, decode_breakdown, describe_malformed,
    due_date_from_json, parse_messages, parse_natural_language, require_api_key,
    subtasks_from_json, task_from_json, ParseResult, ShapeError, SubTask,
};
use fanqie_todo::json::{parse_json, Json};

fn subtask(title: &str, priority: Option<i32>) -> SubTask {
    SubTask { title: title.to_string(), priority }
}

#[test]
fn breakdown_decodes_two_ordered_subtasks() {
    let output = "[{\"title\":\"Step 1\",\"priority\":1},{\"title\":\"Step 2\"}]";
    let found = decode_breakdown(output, parse_json(output));
    assert_eq!(found, Ok(vec![subtask("Step 1", Some(1)), subtask("Step 2", None)]));
}

#[test]
fn breakdown_reads_two_ordered_subtasks_from_a_fenced_reply() {
    let found = breakdown_task(
        "```json\n[{\"title\":\"Step 1\",\"priority\":1},{\"title\":\"Step 2\"}]\n```",
    );
    assert_eq!(found, Ok(vec![subtask("Step 1", Some(1)), subtask("Step 2", None)]));
}

#[test]
fn breakdown_of_a_bare_array_of_two_objects_sees_the_braces_first() {
    let found = breakdown_task("[{\"title\":\"Step 1\",\"priority\":1},{\"title\":\"Step 2\"}]");
    assert_eq!(
        found,
        Err(
            "解析 AI 响应失败: trailing characters at line 1 column 32 ({\"title\":\"Step 1\",\"priority\":1},{\"title\":\"Step 2\"})"
                .to_string()
        )
    );
}

#[test]
fn breakdown_reads_a_fenced_reply() {
    let found = breakdown_task("```\n[{\"title\":\"A\",\"priority\":null,\"note\":\"x\"}]\n```");
    assert_eq!(found, Ok(vec![subtask("A", None)]));
    assert_eq!(breakdown_task("Here you go: []"), Ok(vec![]));
}

#[test]
fn breakdown_of_a_bare_array_of_objects_sees_the_braces_first() {
    let found = breakdown_task("[{\"title\":\"only\"}]");
    assert_eq!(
        found,
        Err("解析 AI 响应失败: expected a JSON array ({\"title\":\"only\"})".to_string())
    );
}

#[test]
fn breakdown_reports_text_that_is_no_json() {
    assert_eq!(
        breakdown_task("  I cannot help with that.  "),
        Err(
            "解析 AI 响应失败: expected value at line 1 column 1 (I cannot help with that.)"
                .to_string()
        )
    );
}

#[test]
fn subtasks_report_the_first_fault() {
    let list = |text: &str| subtasks_from_json(&parse_json(text).unwrap());
    assert_eq!(list("{}"), Err(ShapeError::NotAList));
    assert_eq!(list("null"), Err(ShapeError::NotAList));
    assert_eq!(list("[{\"title\":\"a\"}, 5]"), Err(ShapeError::NotASubtask(1)));
    assert_eq!(list("[\"a\"]"), Err(ShapeError::NotASubtask(0)));
    assert_eq!(list("[null]"), Err(ShapeError::NotASubtask(0)));
    assert_eq!(list("[{\"priority\":1}]"), Err(ShapeError::MissingTitle(0)));
    assert_eq!(list("[{\"title\":null}]"), Err(ShapeError::TitleNotText(0)));
    assert_eq!(list("[{\"title\":\"a\"},{\"title\":7}]"), Err(ShapeError::TitleNotText(1)));
    assert_eq!(
        list("[{\"title\":\"a\",\"priority\":\"high\"}]"),
        Err(ShapeError::InvalidPriority(0))
    );
    assert_eq!(
        list("[{\"title\":\"a\",\"priority\":1.5}]"),
        Err(ShapeError::InvalidPriority(0))
    );
    assert_eq!(
        list("[{\"title\":\"a\",\"priority\":2147483648}]"),
        Err(ShapeError::InvalidPriority(0))
    );
    assert_eq!(
        list("[{\"title\":\"a\"},{\"title\":\"b\"},{},{\"title\":3}]"),
        Err(ShapeError::MissingTitle(2))
    );
}

#[test]
fn subtask_may_be_written_as_an_array_of_title_and_priority() {
    let list = |text: &str| subtasks_from_json(&parse_json(text).unwrap());
    assert_eq!(
        list("[[\"a\", 1], {\"title\":\"b\"}, [\"c\", null]]"),
        Ok(vec![subtask("a", Some(1)), subtask("b", None), subtask("c", None)])
    );
    assert_eq!(list("[[]]"), Err(ShapeError::WrongLength(0)));
    assert_eq!(list("[[\"a\"]]"), Err(ShapeError::WrongLength(0)));
    assert_eq!(list("[[\"a\", 1, 2]]"), Err(ShapeError::WrongLength(0)));
    assert_eq!(list("[[1, 1]]"), Err(ShapeError::TitleNotText(0)));
    assert_eq!(list("[[1]]"), Err(ShapeError::TitleNotText(0)));
    assert_eq!(list("[[\"a\", \"x\"]]"), Err(ShapeError::InvalidPriority(0)));
    assert_eq!(list("[[\"a\", \"x\", 3]]"), Err(ShapeError::InvalidPriority(0)));
    assert_eq!(list("[[\"a\", 1], [\"b\"]]"), Err(ShapeError::WrongLength(1)));
}

#[test]
fn breakdown_reads_array_form_subtasks_from_a_reply() {
    assert_eq!(
        breakdown_task("steps: [[\"a\", 1], [\"b\", null]]"),
        Ok(vec![subtask("a", Some(1)), subtask("b", None)])
    );
}

#[test]
fn subtasks_keep_their_order_and_their_priorities() {
    let json = parse_json(
        "[{\"title\":\"c\",\"priority\":3},{\"title\":\" a \",\"priority\":-2147483648},{\"title\":\"\",\"priority\":2147483647}]",
    )
    .unwrap();
    assert_eq!(
        subtasks_from_json(&json),
        Ok(vec![subtask("c", Some(3)), subtask(" a ", Some(i32::MIN)), subtask("", Some(i32::MAX))])
    );
}

#[test]
fn shape_errors_describe_themselves() {
    assert_eq!(ShapeError::NotAList.describe(), "expected a JSON array");
    assert_eq!(ShapeError::NotASubtask(0).describe(), "item 0: expected an object or an array");
    assert_eq!(
        ShapeError::WrongLength(7).describe(),
        "item 7: expected an array of a title and a priority"
    );
    assert_eq!(ShapeError::MissingTitle(12).describe(), "item 12: missing field `title`");
    assert_eq!(ShapeError::TitleNotText(3).describe(), "item 3: `title` is not a string");
    assert_eq!(
        ShapeError::InvalidPriority(100).describe(),
        "item 100: `priority` is not a 32-bit integer"
    );
}

#[test]
fn decode_breakdown_embeds_the_fault_and_the_text() {
    assert_eq!(
        decode_breakdown("[1]", parse_json("[1]")),
        Err("解析 AI 响应失败: item 0: expected an object or an array ([1])".to_string())
    );
    assert_eq!(
        decode_breakdown("oops", Err("no JSON".to_string())),
        Err("解析 AI 响应失败: no JSON (oops)".to_string())
    );
    assert_eq!(describe_malformed("why", "what"), "解析 AI 响应失败: why (what)");
}

#[test]
fn parse_reads_title_date_priority_and_category() {
    let found = parse_natural_language(
        "{\"title\":\"Buy milk\",\"due_date\":\"2025-03-01\",\"priority\":2,\"category\":null}",
        "buy milk on march 1st".to_string(),
    );
    assert_eq!(
        found,
        Ok(ParseResult {
            title: "Buy milk".to_string(),
            priority: Some(2),
            due_date: Some(1740787200),
            category: None,
        })
    );
}

#[test]
fn parse_reads_a_reply_wrapped_in_prose_or_a_fence() {
    let expected = Ok(ParseResult {
        title: "写报告".to_string(),
        priority: Some(1),
        due_date: None,
        category: Some("工作".to_string()),
    });
    let body = "{\"title\": \" 写报告 \", \"due_date\": null, \"priority\": 1, \"category\": \"工作\"}";
    assert_eq!(parse_natural_language(&format!("好的:{}", body), "x".to_string()), expected);
    assert_eq!(
        parse_natural_language(&format!("```\n{}\n```", body), "x".to_string()),
        expected
    );
}

#[test]
fn parse_falls_back_to_the_input_for_the_title() {
    for reply in ["{}", "{\"title\":\"\"}", "{\"title\":\"   \"}", "{\"title\":5}", "{\"title\":null}"] {
        let found = parse_natural_language(reply, " raw input ".to_string()).unwrap();
        assert_eq!(found.title, " raw input ", "{}", reply);
    }
}

#[test]
fn parse_leaves_out_what_is_missing_or_of_another_type() {
    let found = parse_natural_language(
        "{\"title\":\"t\",\"due_date\":20250301,\"priority\":\"2\",\"category\":3}",
        "in".to_string(),
    );
    assert_eq!(
        found,
        Ok(ParseResult { title: "t".to_string(), priority: None, due_date: None, category: None })
    );
    let found = parse_natural_language(
        "{\"title\":\"t\",\"due_date\":\"next week\",\"priority\":2.5}",
        "in".to_string(),
    );
    assert_eq!(
        found,
        Ok(ParseResult { title: "t".to_string(), priority: None, due_date: None, category: None })
    );
}

#[test]
fn parse_of_a_document_that_is_no_object_leaves_everything_out() {
    for reply in ["[1, 2]", "5", "\"text\"", "null"] {
        assert_eq!(
            parse_natural_language(reply, "the input".to_string()),
            Ok(ParseResult {
                title: "the input".to_string(),
                priority: None,
                due_date: None,
                category: None,
            }),
            "{}",
            reply
        );
    }
}

#[test]
fn parse_cuts_the_priority_to_32_bits() {
    let found = parse_natural_language("{\"priority\":4294967297}", "in".to_string()).unwrap();
    assert_eq!(found.priority, Some(1));
    let found = parse_natural_language("{\"priority\":-1}", "in".to_string()).unwrap();
    assert_eq!(found.priority, Some(-1));
}

#[test]
fn parse_reports_text_that_is_no_json() {
    assert_eq!(
        parse_natural_language("sorry", "in".to_string()),
        Err("解析 AI 响应失败: expected value at line 1 column 1 (sorry)".to_string())
    );
    assert_eq!(
        parse_natural_language("{\"title\": }", "in".to_string()),
        Err("解析 AI 响应失败: expected value at line 1 column 11 ({\"title\": })".to_string())
    );
}

#[test]
fn task_from_json_takes_the_due_date_as_given() {
    let json = parse_json("{\"title\":\"t\",\"category\":\"home\",\"due_date\":\"2025-03-01\"}").unwrap();
    assert_eq!(
        task_from_json(&json, Some(42), "in".to_string()),
        ParseResult {
            title: "t".to_string(),
            priority: None,
            due_date: Some(42),
            category: Some("home".to_string()),
        }
    );
    assert_eq!(due_date_from_json(&json), Some(1740787200));
    assert_eq!(due_date_from_json(&Json::Null), None);
}

#[test]
fn breakdown_prompt_has_a_system_and_a_user_message() {
    let messages = breakdown_messages("搬家");
    assert_eq!(messages.len(), 2);
    assert_eq!(messages[0].role, "system");
    assert_eq!(messages[0].content, "你是一个任务规划助手。");
    assert_eq!(messages[1].role, "user");
    assert_eq!(
        messages[1].content,
        "你是一个任务规划助手。将用户的任务分解为具体、可执行的子任务。\n规则:\n1. 每个子任务应该是一个清晰的行动项\n2. 子任务数量控制在3-7个\n3. 按逻辑顺序排列\n4. 仅输出JSON数组,不要输出Markdown代码块/解释文字\n输出JSON格式: [{\"title\": \"子任务标题\", \"priority\": 1-3}]\n用户任务: 搬家"
    );
}

#[test]
fn parse_prompt_is_one_user_message() {
    let messages = parse_messages("明天买牛奶");
    assert_eq!(messages.len(), 1);
    assert_eq!(messages[0].role, "user");
    assert_eq!(
        messages[0].content,
        "从用户输入中提取任务信息,仅输出JSON(不要Markdown/解释文字):\n{\"title\": \"任务标题\", \"due_date\": \"YYYY-MM-DD或null\", \"priority\": 1-3, \"category\": \"分类或null\"}\n用户输入: 明天买牛奶"
    );
}

#[test]
fn a_call_needs_an_api_key() {
    assert_eq!(require_api_key(Some("sk-1".to_string())), Ok("sk-1".to_string()));
    assert_eq!(require_api_key(None), Err("请先在设置中配置 API Key".to_string()));
}

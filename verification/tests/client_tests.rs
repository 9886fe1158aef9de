use muku::client::{first_choice_content, merge_payload, LlmResponse, RawAction, RawLlmResponse, TaskAction, TaskPayload};

fn payload(id: Option<&str>, title: Option<&str>) -> TaskPayload {
    TaskPayload {
        id: id.map(String::from),
        title: title.map(String::from),
        priority: None,
        due: None,
        due_at: None,
        category: None,
    }
}

#[test]
fn nested_fields_win_and_flat_fields_fill_gaps() {
    let nested = TaskPayload { priority: Some("high".into()), ..payload(None, Some("資料作成")) };
    let flat = TaskPayload { due: Some("明日まで".into()), ..payload(Some("t1"), Some("ignored")) };
    let m = merge_payload(Some(nested), flat);
    assert_eq!(m.id.as_deref(), Some("t1"));
    assert_eq!(m.title.as_deref(), Some("資料作成"));
    assert_eq!(m.priority.as_deref(), Some("high"));
    assert_eq!(m.due.as_deref(), Some("明日まで"));
    assert_eq!(m.due_at, None);
    assert_eq!(m.category, None);
}

#[test]
fn flat_fields_alone_without_nested_task() {
    let m = merge_payload(None, payload(Some("t9"), None));
    assert_eq!(m.id.as_deref(), Some("t9"));
    assert_eq!(m.title, None);
}

#[test]
fn raw_action_converts() {
    let raw = RawAction { action_type: "complete".into(), task: None, flat: payload(Some("42"), None) };
    let a = TaskAction::from(raw);
    assert_eq!(a.action_type, "complete");
    assert_eq!(a.task.id.as_deref(), Some("42"));
}

#[test]
fn raw_reply_normalised_in_order() {
    let raw = RawLlmResponse {
        message: "追加しました！".into(),
        actions: vec![
            RawAction { action_type: "add".into(), task: Some(payload(None, Some("a"))), flat: payload(None, None) },
            RawAction { action_type: "delete".into(), task: None, flat: payload(Some("7"), None) },
        ],
    };
    let r = LlmResponse::from_raw(raw);
    assert_eq!(r.message, "追加しました！");
    assert_eq!(r.actions.len(), 2);
    assert_eq!(r.actions[0].action_type, "add");
    assert_eq!(r.actions[0].task.title.as_deref(), Some("a"));
    assert_eq!(r.actions[1].action_type, "delete");
    assert_eq!(r.actions[1].task.id.as_deref(), Some("7"));
    let empty = LlmResponse::from_raw(RawLlmResponse { message: "こんにちは！".into(), actions: vec![] });
    assert!(empty.actions.is_empty());
}

#[test]
fn completion_content_is_first_choice() {
    assert_eq!(first_choice_content(&vec!["a".into(), "b".into()]), Ok("a".to_string()));
    assert_eq!(first_choice_content(&vec![]), Err("LLM returned empty choices".to_string()));
}

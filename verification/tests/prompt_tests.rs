use muku::prompt::{build_messages, build_system_content, HistoryMessage, SYSTEM_PROMPT};

#[test]
fn system_content_with_user_name() {
    let s = build_system_content("2026-04-16T09:00:00+09:00", Some("[]"), Some("たくみ"));
    let expected = format!(
        "{SYSTEM_PROMPT}\n\n現在時刻 (JST): 2026-04-16T09:00:00+09:00\nユーザーの呼び名: たくみ（会話中この名前で呼ぶこと）\n\n現在のアクティブなタスク一覧:\n[]"
    );
    assert_eq!(s, expected);
}

#[test]
fn system_content_without_name_and_unserialisable_tasks() {
    let s = build_system_content("now", None, None);
    assert_eq!(s, format!("{SYSTEM_PROMPT}\n\n現在時刻 (JST): now\n\n現在のアクティブなタスク一覧:\n[]"));
    let t = build_system_content("now", Some("[{\"id\": \"1\"}]"), None);
    assert!(t.ends_with("一覧:\n[{\"id\": \"1\"}]"));
}

#[test]
fn prompt_asks_for_json_reply() {
    assert!(SYSTEM_PROMPT.starts_with("あなたは「ムク」という名前のAIタスクマネージャーです。"));
    assert!(SYSTEM_PROMPT.ends_with("/no_think"));
    assert!(SYSTEM_PROMPT.contains("\"type\": \"add\" | \"complete\" | \"delete\" | \"update\""));
    assert!(SYSTEM_PROMPT.contains("1. 資料作成（高）- 明日まで\\n2. 買い物（低）"));
}

#[test]
fn messages_in_order() {
    let history = vec![
        HistoryMessage { role: "user".into(), content: "こんにちは".into() },
        HistoryMessage { role: "assistant".into(), content: "{\"message\":\"hi\"}".into() },
    ];
    let msgs = build_messages("t0", Some("[]"), &history, "資料作成を追加して", None);
    assert_eq!(msgs.len(), 4);
    assert_eq!(msgs[0].role, "system");
    assert_eq!(msgs[0].content, build_system_content("t0", Some("[]"), None));
    assert_eq!(msgs[1].role, "user");
    assert_eq!(msgs[1].content, "こんにちは");
    assert_eq!(msgs[2].role, "assistant");
    assert_eq!(msgs[2].content, "{\"message\":\"hi\"}");
    assert_eq!(msgs[3].role, "user");
    assert_eq!(msgs[3].content, "資料作成を追加して");
}

#[test]
fn messages_without_history() {
    let msgs = build_messages("t0", None, &[], "hi", Some("A"));
    assert_eq!(msgs.len(), 2);
    assert_eq!(msgs[0].content, build_system_content("t0", None, Some("A")));
    assert_eq!(msgs[1].role, "user");
    assert_eq!(msgs[1].content, "hi");
}

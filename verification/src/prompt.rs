//! The conversation sent to the language model: its fixed instructions,
//! the system message with the time, the user's name and the active tasks,
//! and the message list built from the history and the new input.
use vstd::prelude::*;
use vstd::string::*;

verus! {

/// The instructions that open every conversation with the model.
pub const SYSTEM_PROMPT: &'static str = "あなたは「ムク」という名前のAIタスクマネージャーです。
ユーザーのタスク管理を自然な会話を通じて行います。

必ず以下のJSON形式で応答してください。他のテキストは含めないでください。
各 action の詳細フィールドは必ず \"task\" オブジェクトの中に入れます。

スキーマ:
{
  \"message\": \"ユーザーへの応答メッセージ\",
  \"actions\": [
    {
      \"type\": \"add\" | \"complete\" | \"delete\" | \"update\",
      \"task\": {
        \"id\": \"既存タスクのID（complete/delete/update では必須）\",
        \"title\": \"タスクのタイトル\",
        \"priority\": \"high\" | \"medium\" | \"low\",
        \"due\": \"自然言語の期限（例: 今日中, 明日朝）\",
        \"due_at\": \"ISO 8601 の期限日時（例: 2026-04-16T09:00:00+09:00）\",
        \"category\": \"カテゴリ（任意）\"
      }
    }
  ]
}

例 1（タスク追加）:
{
  \"message\": \"追加しました！\",
  \"actions\": [
    { \"type\": \"add\", \"task\": { \"title\": \"資料作成\", \"priority\": \"high\", \"due\": \"明日まで\", \"due_at\": \"2026-04-16T23:59:00+09:00\" } }
  ]
}

例 2（タスク完了）:
{
  \"message\": \"お疲れ様でした！\",
  \"actions\": [
    { \"type\": \"complete\", \"task\": { \"id\": \"既存のID\" } }
  ]
}

例 3（タスク一覧を聞かれた場合）:
{
  \"message\": \"現在のタスク一覧です：\\n\\n1. 資料作成（高）- 明日まで\\n2. 買い物（低）\\n\\n全2件\",
  \"actions\": []
}

例 4（アクション不要な雑談）:
{
  \"message\": \"こんにちは！\",
  \"actions\": []
}

ルール:
- 必ず action の詳細は \"task\" オブジェクトの中に入れる（id を直接 action の下に書かない）
- actionsが不要な会話では空配列を返す
- タスク一覧を聞かれたら、現在のアクティブなタスクの内容を message 内にリスト形式で記載する（タスクがなければ「タスクはありません」と伝える）
- complete と delete では task.id のみ必須
- update では task.id と変更するフィールドのみ含める
- 文脈から priority, category, due を推測する
- due が明確な場合は ISO 8601 (JST +09:00) で due_at を埋める
- due が曖昧な場合は due のみでよい（due_at は省略）
- ユーザーの言語に合わせて応答する
- 簡潔かつ親しみやすいトーンで
- 絵文字は使わない（トークン節約のため）

/no_think";

/// An active task as the model sees it.
#[derive(Clone, Debug)]
pub struct TaskContext {
    pub id: String,
    pub title: String,
    pub priority: String,
    pub status: String,
    pub category: Option<String>,
    pub due: Option<String>,
    pub due_at: Option<String>,
}

/// An earlier message of the conversation.
#[derive(Clone, Debug)]
pub struct HistoryMessage {
    pub role: String,
    pub content: String,
}

/// A message sent to the model.
#[derive(Debug)]
pub struct ChatMessage {
    pub role: String,
    pub content: String,
}

/// The line that tells the model how to address the user, if a name is set.
pub open spec fn user_line(username: Option<Seq<char>>) -> Seq<char> {
    match username {
        Some(name) => "\nユーザーの呼び名: "@ + name + "（会話中この名前で呼ぶこと）"@,
        None => Seq::empty(),
    }
}

/// The active tasks as JSON text; an empty list when they could not be
/// written out.
pub open spec fn tasks_text(tasks_json: Option<Seq<char>>) -> Seq<char> {
    match tasks_json {
        Some(t) => t,
        None => "[]"@,
    }
}

/// The system message: the instructions, the current time, the user's
/// name and the active tasks.
pub open spec fn system_content(
    now: Seq<char>,
    tasks_json: Option<Seq<char>>,
    username: Option<Seq<char>>,
) -> Seq<char> {
    SYSTEM_PROMPT@ + "\n\n現在時刻 (JST): "@ + now + user_line(username)
        + "\n\n現在のアクティブなタスク一覧:\n"@ + tasks_text(tasks_json)
}

pub open spec fn opt_view(o: Option<&str>) -> Option<Seq<char>> {
    match o {
        Some(s) => Some(s@),
        None => None,
    }
}

/// Builds the system message from the current time (JST), the active
/// tasks written out as pretty JSON (or `None` when writing them failed)
/// and the optional name of the user.
pub fn build_system_content(now: &str, tasks_json: Option<&str>, username: Option<&str>) -> (r: String)
    ensures
        r@ == system_content(now@, opt_view(tasks_json), opt_view(username)),
{
    let mut s: String = SYSTEM_PROMPT.to_owned();
    s.append("\n\n現在時刻 (JST): ");
    s.append(now);
    match username {
        Some(name) => {
            s.append("\nユーザーの呼び名: ");
            s.append(name);
            s.append("（会話中この名前で呼ぶこと）");
        },
        None => {},
    }
    s.append("\n\n現在のアクティブなタスク一覧:\n");
    match tasks_json {
        Some(t) => s.append(t),
        None => s.append("[]"),
    }
    proof {
        assert(s@ =~= system_content(now@, opt_view(tasks_json), opt_view(username)));
    }
    s
}

/// The system message opens with the instructions, directly followed by the
/// current time, whatever the tasks and the user's name; the user's name,
/// when set, follows the time; and the message ends with the tasks (an
/// empty list when they could not be written out).
pub proof fn lemma_system_content_layout(now: Seq<char>, tasks_json: Option<Seq<char>>, username: Option<Seq<char>>)
    ensures
        ({
            let c = system_content(now, tasks_json, username);
            let head = SYSTEM_PROMPT@ + "\n\n現在時刻 (JST): "@ + now;
            let tail = tasks_text(tasks_json);
            &&& c.len() >= head.len() + tail.len()
            &&& c.subrange(0, head.len() as int) == head
            &&& c.subrange(c.len() - tail.len(), c.len() as int) == tail
            &&& (username matches Some(name) ==> c.subrange(head.len() as int, (head.len() + user_line(username).len()) as int)
                == "\nユーザーの呼び名: "@ + name + "（会話中この名前で呼ぶこと）"@)
        }),
        tasks_json is None ==> tasks_text(tasks_json) == "[]"@,
        tasks_json matches Some(t) ==> tasks_text(tasks_json) == t,
{
    let c = system_content(now, tasks_json, username);
    let head = SYSTEM_PROMPT@ + "\n\n現在時刻 (JST): "@ + now;
    let tail = tasks_text(tasks_json);
    let mid = user_line(username) + "\n\n現在のアクティブなタスク一覧:\n"@;
    assert(c =~= head + mid + tail);
    assert(c.subrange(0, head.len() as int) =~= head);
    assert(c.subrange(c.len() - tail.len(), c.len() as int) =~= tail);
    assert(c.subrange(head.len() as int, (head.len() + user_line(username).len()) as int) =~= user_line(username));
}

/// The message list sent to the model: the system message, then the
/// history in order, then the user's new input.
pub open spec fn messages_match(
    r: Seq<ChatMessage>,
    system: Seq<char>,
    history: Seq<HistoryMessage>,
    user_input: Seq<char>,
) -> bool {
    &&& r.len() == history.len() + 2
    &&& r[0].role@ == "system"@
    &&& r[0].content@ == system
    &&& forall|i: int| 0 <= i < history.len() ==> (#[trigger] r[i + 1]).role == history[i].role
        && r[i + 1].content == history[i].content
    &&& r[r.len() - 1].role@ == "user"@
    &&& r[r.len() - 1].content@ == user_input
}

/// Builds the messages of a model request.
pub fn build_messages(
    now: &str,
    tasks_json: Option<&str>,
    history: &[HistoryMessage],
    user_input: &str,
    username: Option<&str>,
) -> (r: Vec<ChatMessage>)
    ensures
        messages_match(
            r@,
            system_content(now@, opt_view(tasks_json), opt_view(username)),
            history@,
            user_input@,
        ),
{
    let mut msgs: Vec<ChatMessage> = Vec::new();
    msgs.push(ChatMessage {
        role: "system".to_owned(),
        content: build_system_content(now, tasks_json, username),
    });
    let mut i: usize = 0;
    while i < history.len()
        invariant
            i <= history@.len(),
            msgs@.len() == i + 1,
            msgs@[0].role@ == "system"@,
            msgs@[0].content@ == system_content(now@, opt_view(tasks_json), opt_view(username)),
            forall|j: int| 0 <= j < i ==> (#[trigger] msgs@[j + 1]).role == history@[j].role
                && msgs@[j + 1].content == history@[j].content,
        decreases history@.len() - i,
    {
        let m = &history[i];
        msgs.push(ChatMessage { role: m.role.clone(), content: m.content.clone() });
        i = i + 1;
    }
    msgs.push(ChatMessage { role: "user".to_owned(), content: user_input.to_owned() });
    msgs
}

} // verus!

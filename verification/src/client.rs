//! The structured reply of the language model: task actions with their
//! payloads, and how a reply as it arrives is normalised.
use vstd::prelude::*;

verus! {

/// The task fields that an action carries; each is optional.
#[derive(Clone, Debug)]
pub struct TaskPayload {
    pub id: Option<String>,
    pub title: Option<String>,
    pub priority: Option<String>,
    pub due: Option<String>,
    pub due_at: Option<String>,
    pub category: Option<String>,
}

/// One task action of a reply: its kind (`add`, `complete`, `delete` or
/// `update`) and the task it concerns.
#[derive(Clone, Debug)]
pub struct TaskAction {
    pub action_type: String,
    pub task: TaskPayload,
}

/// A normalised reply: the message to the user and the task actions.
#[derive(Clone, Debug)]
pub struct LlmResponse {
    pub message: String,
    pub actions: Vec<TaskAction>,
}

/// An action as the model writes it: the task fields may stand in a nested
/// `task` object, directly beside the action's type, or both.
#[derive(Debug)]
pub struct RawAction {
    pub action_type: String,
    pub task: Option<TaskPayload>,
    pub flat: TaskPayload,
}

/// A reply as the model writes it.
#[derive(Debug)]
pub struct RawLlmResponse {
    pub message: String,
    pub actions: Vec<RawAction>,
}

/// A field of the nested task, or else the same field written beside the
/// action's type.
pub open spec fn field_or(nested: Option<String>, flat: Option<String>) -> Option<String> {
    match nested {
        Some(v) => Some(v),
        None => flat,
    }
}

/// The task of a raw action: the nested task, each missing field filled in
/// from the fields beside the action's type; without a nested task, those
/// fields alone.
pub open spec fn merged_payload(task: Option<TaskPayload>, flat: TaskPayload) -> TaskPayload {
    match task {
        Some(t) => TaskPayload {
            id: field_or(t.id, flat.id),
            title: field_or(t.title, flat.title),
            priority: field_or(t.priority, flat.priority),
            due: field_or(t.due, flat.due),
            due_at: field_or(t.due_at, flat.due_at),
            category: field_or(t.category, flat.category),
        },
        None => flat,
    }
}

fn or_field(nested: Option<String>, flat: Option<String>) -> (r: Option<String>)
    ensures
        r == field_or(nested, flat),
{
    match nested {
        Some(v) => Some(v),
        None => flat,
    }
}

/// Merges the task of a raw action with the fields beside its type.
pub fn merge_payload(task: Option<TaskPayload>, flat: TaskPayload) -> (r: TaskPayload)
    ensures
        r == merged_payload(task, flat),
{
    match task {
        Some(t) => TaskPayload {
            id: or_field(t.id, flat.id),
            title: or_field(t.title, flat.title),
            priority: or_field(t.priority, flat.priority),
            due: or_field(t.due, flat.due),
            due_at: or_field(t.due_at, flat.due_at),
            category: or_field(t.category, flat.category),
        },
        None => flat,
    }
}

impl From<RawAction> for TaskAction {
    fn from(r: RawAction) -> (ret: TaskAction) {
        TaskAction { action_type: r.action_type, task: merge_payload(r.task, r.flat) }
    }
}

impl vstd::std_specs::convert::FromSpecImpl<RawAction> for TaskAction {
    open spec fn obeys_from_spec() -> bool {
        true
    }

    open spec fn from_spec(r: RawAction) -> TaskAction {
        TaskAction { action_type: r.action_type, task: merged_payload(r.task, r.flat) }
    }
}

/// The normalised action of a raw action.
pub open spec fn action_of(r: RawAction) -> TaskAction {
    TaskAction { action_type: r.action_type, task: merged_payload(r.task, r.flat) }
}

/// The normalised reply of a raw reply: the same message, and each action
/// normalised, in order.
pub open spec fn response_matches(r: LlmResponse, raw: RawLlmResponse) -> bool {
    &&& r.message == raw.message
    &&& r.actions@.len() == raw.actions@.len()
    &&& forall|i: int| 0 <= i < r.actions@.len() ==> #[trigger] r.actions@[i] == action_of(raw.actions@[i])
}

impl LlmResponse {
    /// Normalises a raw reply: the same message, each action normalised, in
    /// order.
    pub fn from_raw(r: RawLlmResponse) -> (ret: LlmResponse)
        ensures
            response_matches(ret, r),
    {
        let RawLlmResponse { message, actions } = r;
        let ghost raw_actions = actions@;
        let mut remaining = actions;
        let mut out: Vec<TaskAction> = Vec::new();
        while remaining.len() > 0
            invariant
                out@.len() + remaining@.len() == raw_actions.len(),
                remaining@ == raw_actions.skip(out@.len() as int),
                forall|i: int| 0 <= i < out@.len() ==> #[trigger] out@[i] == action_of(raw_actions[i]),
            decreases remaining@.len(),
        {
            let a = remaining.remove(0);
            let ghost k = out@.len() as int;
            assert(raw_actions[k] == a);
            out.push(TaskAction::from(a));
            assert(remaining@ =~= raw_actions.skip(out@.len() as int));
        }
        LlmResponse { message, actions: out }
    }
}

/// The error text of a completion without choices.
pub open spec fn empty_choices_message() -> Seq<char> {
    "LLM returned empty choices"@
}

/// The reply text of a completion: the content of its first choice.
pub fn first_choice_content(contents: &Vec<String>) -> (r: Result<String, String>)
    ensures
        contents@.len() > 0 ==> r == Ok::<String, String>(contents@[0]),
        contents@.len() == 0 ==> r is Err && r->Err_0@ == empty_choices_message(),
{
    if contents.len() > 0 {
        Ok(contents[0].clone())
    } else {
        Err("LLM returned empty choices".to_owned())
    }
}

/// Each field of a merged task is the nested task's field when it has one,
/// and otherwise the same field written beside the action's type; without a
/// nested task, the fields beside the type are the task.
pub proof fn lemma_merge_fields(task: Option<TaskPayload>, flat: TaskPayload)
    ensures
        task is None ==> merged_payload(task, flat) == flat,
        task matches Some(t) ==> {
            let m = merged_payload(task, flat);
            &&& (t.id is Some ==> m.id == t.id) && (t.id is None ==> m.id == flat.id)
            &&& (t.title is Some ==> m.title == t.title) && (t.title is None ==> m.title == flat.title)
            &&& (t.priority is Some ==> m.priority == t.priority) && (t.priority is None ==> m.priority == flat.priority)
            &&& (t.due is Some ==> m.due == t.due) && (t.due is None ==> m.due == flat.due)
            &&& (t.due_at is Some ==> m.due_at == t.due_at) && (t.due_at is None ==> m.due_at == flat.due_at)
            &&& (t.category is Some ==> m.category == t.category) && (t.category is None ==> m.category
                == flat.category)
        },
{
}

/// Normalising a reply keeps its message, and each action keeps its type,
/// in order.
pub proof fn lemma_reply_keeps_types(r: LlmResponse, raw: RawLlmResponse)
    requires
        response_matches(r, raw),
    ensures
        r.message == raw.message,
        r.actions@.len() == raw.actions@.len(),
        forall|i: int| 0 <= i < r.actions@.len() ==> (#[trigger] r.actions@[i]).action_type == raw.actions@[i].action_type,
{
    assert forall|i: int| 0 <= i < r.actions@.len() implies (#[trigger] r.actions@[i]).action_type
        == raw.actions@[i].action_type by {
        assert(r.actions@[i] == action_of(raw.actions@[i]));
    }
}

/// Fields given in the nested task take precedence over those beside the
/// action's type: merging with no fields beside it keeps the nested task.
pub proof fn lemma_merge_prefers_nested(t: TaskPayload, flat: TaskPayload)
    requires
        flat.id is None && flat.title is None && flat.priority is None && flat.due is None
            && flat.due_at is None && flat.category is None,
    ensures
        merged_payload(Some(t), flat) == t,
{
}

} // verus!

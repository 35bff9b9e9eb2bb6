use crate::fields::{
    opt_bool_json, opt_count_json, opt_string_view, opt_text_json, opt_time_json, opt_uuid_json,
    read_opt_bool, read_opt_count, read_opt_text, read_opt_time, read_opt_uuid,
    read_opt_uuid_list, read_text,
};
use crate::ident::Uuid;
use crate::json::{
    entry, lemma_lookup_concat, lemma_lookup_entry, lookup, texts_view, Json, JsonObject, JsonValue,
};
use crate::pomo::{count_set, opt_bool_text, opt_display_text, opt_time_reads_back, opt_uuid_reads_back};
use crate::query::{bool_string, join_query, join_terms, lemma_join_terms, push_term, term};
use crate::time::Timestamp;
use vstd::prelude::*;
use vstd::string::*;

verus! {

/// How often a todo repeats.
#[derive(Debug, Clone, Copy, PartialEq, Eq, Structural)]
pub enum RepeatType {
    NoRepeat,
    EachDay,
    EachWeek,
    EachTwoWeek,
    EachMonth,
    EachYear,
}

impl RepeatType {
    /// The token that stands for the cadence on the wire.
    pub open spec fn token(self) -> Seq<char> {
        match self {
            RepeatType::NoRepeat => "none"@,
            RepeatType::EachDay => "each_day"@,
            RepeatType::EachWeek => "each_week"@,
            RepeatType::EachTwoWeek => "each_two_week"@,
            RepeatType::EachMonth => "each_month"@,
            RepeatType::EachYear => "each_year"@,
        }
    }

    pub fn to_token(&self) -> (r: String)
        ensures
            r@ == self.token(),
    {
        match self {
            RepeatType::NoRepeat => String::from_str("none"),
            RepeatType::EachDay => String::from_str("each_day"),
            RepeatType::EachWeek => String::from_str("each_week"),
            RepeatType::EachTwoWeek => String::from_str("each_two_week"),
            RepeatType::EachMonth => String::from_str("each_month"),
            RepeatType::EachYear => String::from_str("each_year"),
        }
    }

    /// The cadence that a token stands for; `None` for any other text.
    pub fn from_token(s: &str) -> (r: Option<RepeatType>)
        ensures
            r == repeat_of_token(s@),
    {
        let t = String::from_str(s);
        if t == String::from_str("none") {
            Some(RepeatType::NoRepeat)
        } else if t == String::from_str("each_day") {
            Some(RepeatType::EachDay)
        } else if t == String::from_str("each_week") {
            Some(RepeatType::EachWeek)
        } else if t == String::from_str("each_two_week") {
            Some(RepeatType::EachTwoWeek)
        } else if t == String::from_str("each_month") {
            Some(RepeatType::EachMonth)
        } else if t == String::from_str("each_year") {
            Some(RepeatType::EachYear)
        } else {
            None
        }
    }
}

pub open spec fn repeat_of_token(s: Seq<char>) -> Option<RepeatType> {
    if s == "none"@ {
        Some(RepeatType::NoRepeat)
    } else if s == "each_day"@ {
        Some(RepeatType::EachDay)
    } else if s == "each_week"@ {
        Some(RepeatType::EachWeek)
    } else if s == "each_two_week"@ {
        Some(RepeatType::EachTwoWeek)
    } else if s == "each_month"@ {
        Some(RepeatType::EachMonth)
    } else if s == "each_year"@ {
        Some(RepeatType::EachYear)
    } else {
        None
    }
}

/// Each cadence reads back from its token, and a text reads as a cadence
/// only when it is that cadence's token.
pub proof fn lemma_repeat_tokens(r: RepeatType, s: Seq<char>)
    ensures
        repeat_of_token(r.token()) == Some(r),
        repeat_of_token(s) matches Some(q) ==> s == q.token(),
{
    reveal_strlit("none");
    reveal_strlit("each_day");
    reveal_strlit("each_week");
    reveal_strlit("each_two_week");
    reveal_strlit("each_month");
    reveal_strlit("each_year");
    assert("none"@.len() == 4);
    assert("each_day"@.len() == 8);
    assert("each_week"@.len() == 9 && "each_week"@[5] == 'w');
    assert("each_two_week"@.len() == 13);
    assert("each_month"@.len() == 10);
    assert("each_year"@.len() == 9 && "each_year"@[5] == 'y');
}

pub open spec fn opt_repeat_json(o: Option<RepeatType>) -> Option<Json> {
    match o {
        Some(r) => Some(Json::Text(r.token())),
        None => None,
    }
}

pub open spec fn read_opt_repeat(f: Seq<(Seq<char>, Json)>, key: Seq<char>) -> Option<Option<RepeatType>> {
    match read_opt_text(f, key) {
        Some(Some(s)) => match repeat_of_token(s) {
            Some(r) => Some(Some(r)),
            None => None,
        },
        Some(None) => Some(None),
        None => None,
    }
}

/// A task.
///
/// To create one the server needs `description`; it assigns `uuid`,
/// `created_at` and `updated_at` itself. `sub_todos` is filled by the
/// server and never sent.
#[derive(Debug, Clone, PartialEq)]
pub struct Todo {
    pub uuid: Option<Uuid>,
    pub created_at: Option<Timestamp>,
    pub updated_at: Option<Timestamp>,
    pub description: String,
    pub notice: Option<String>,
    pub pin: Option<bool>,
    pub completed: Option<bool>,
    pub completed_at: Option<Timestamp>,
    pub repeat_type: Option<RepeatType>,
    pub remind_time: Option<Timestamp>,
    pub estimated_pomo_count: Option<u64>,
    pub costed_pomo_count: Option<u64>,
    pub sub_todos: Option<Vec<Uuid>>,
}

pub struct TodoView {
    pub uuid: Option<Uuid>,
    pub created_at: Option<Timestamp>,
    pub updated_at: Option<Timestamp>,
    pub description: Seq<char>,
    pub notice: Option<Seq<char>>,
    pub pin: Option<bool>,
    pub completed: Option<bool>,
    pub completed_at: Option<Timestamp>,
    pub repeat_type: Option<RepeatType>,
    pub remind_time: Option<Timestamp>,
    pub estimated_pomo_count: Option<u64>,
    pub costed_pomo_count: Option<u64>,
    pub sub_todos: Option<Seq<Uuid>>,
}

pub open spec fn opt_uuids_view(o: Option<Vec<Uuid>>) -> Option<Seq<Uuid>> {
    match o {
        Some(v) => Some(v@),
        None => None,
    }
}

impl View for Todo {
    type V = TodoView;

    open spec fn view(&self) -> TodoView {
        TodoView {
            uuid: self.uuid,
            created_at: self.created_at,
            updated_at: self.updated_at,
            description: self.description@,
            notice: opt_string_view(self.notice),
            pin: self.pin,
            completed: self.completed,
            completed_at: self.completed_at,
            repeat_type: self.repeat_type,
            remind_time: self.remind_time,
            estimated_pomo_count: self.estimated_pomo_count,
            costed_pomo_count: self.costed_pomo_count,
            sub_todos: opt_uuids_view(self.sub_todos),
        }
    }
}

impl TodoView {
    /// The same todo without the fields that the server assigns.
    pub open spec fn without_server_fields(self) -> TodoView {
        TodoView { uuid: None, created_at: None, updated_at: None, ..self }
    }

    /// What JSON can carry back of a todo: everything but `sub_todos`.
    pub open spec fn without_sub_todos(self) -> TodoView {
        TodoView { sub_todos: None, ..self }
    }

    /// Every instant and identifier in the todo reads back from its text.
    pub open spec fn reads_back(self) -> bool {
        &&& opt_uuid_reads_back(self.uuid)
        &&& opt_time_reads_back(self.created_at)
        &&& opt_time_reads_back(self.updated_at)
        &&& opt_time_reads_back(self.completed_at)
        &&& opt_time_reads_back(self.remind_time)
    }
}

/// The JSON members of a todo: one per field that holds a value, in
/// declaration order; never `sub_todos`.
pub open spec fn todo_json(t: TodoView) -> Seq<(Seq<char>, Json)> {
    entry("uuid"@, opt_uuid_json(t.uuid))
        + entry("created_at"@, opt_time_json(t.created_at))
        + entry("updated_at"@, opt_time_json(t.updated_at))
        + entry("description"@, Some(Json::Text(t.description)))
        + entry("notice"@, opt_text_json(t.notice))
        + entry("pin"@, opt_bool_json(t.pin))
        + entry("completed"@, opt_bool_json(t.completed))
        + entry("completed_at"@, opt_time_json(t.completed_at))
        + entry("repeat_type"@, opt_repeat_json(t.repeat_type))
        + entry("remind_time"@, opt_time_json(t.remind_time))
        + entry("estimated_pomo_count"@, opt_count_json(t.estimated_pomo_count))
        + entry("costed_pomo_count"@, opt_count_json(t.costed_pomo_count))
}

/// The todo that JSON members describe, if they describe one.
pub open spec fn todo_from_json(f: Seq<(Seq<char>, Json)>) -> Option<TodoView> {
    let uuid = read_opt_uuid(f, "uuid"@);
    let created_at = read_opt_time(f, "created_at"@);
    let updated_at = read_opt_time(f, "updated_at"@);
    let description = read_text(f, "description"@);
    let notice = read_opt_text(f, "notice"@);
    let pin = read_opt_bool(f, "pin"@);
    let completed = read_opt_bool(f, "completed"@);
    let completed_at = read_opt_time(f, "completed_at"@);
    let repeat_type = read_opt_repeat(f, "repeat_type"@);
    let remind_time = read_opt_time(f, "remind_time"@);
    let estimated_pomo_count = read_opt_count(f, "estimated_pomo_count"@);
    let costed_pomo_count = read_opt_count(f, "costed_pomo_count"@);
    let sub_todos = read_opt_uuid_list(f, "sub_todos"@);
    if uuid is Some && created_at is Some && updated_at is Some && description is Some
        && notice is Some && pin is Some && completed is Some && completed_at is Some
        && repeat_type is Some && remind_time is Some && estimated_pomo_count is Some
        && costed_pomo_count is Some && sub_todos is Some {
        Some(
            TodoView {
                uuid: uuid->0,
                created_at: created_at->0,
                updated_at: updated_at->0,
                description: description->0,
                notice: notice->0,
                pin: pin->0,
                completed: completed->0,
                completed_at: completed_at->0,
                repeat_type: repeat_type->0,
                remind_time: remind_time->0,
                estimated_pomo_count: estimated_pomo_count->0,
                costed_pomo_count: costed_pomo_count->0,
                sub_todos: sub_todos->0,
            },
        )
    } else {
        None
    }
}

/// A task under a todo.
///
/// To create one the server needs `description`. `parent_uuid` may be
/// sent but the server ignores it: the parent is the one in the URL.
#[derive(Debug, Clone, PartialEq)]
pub struct SubTodo {
    pub uuid: Option<Uuid>,
    pub parent_uuid: Option<Uuid>,
    pub created_at: Option<Timestamp>,
    pub updated_at: Option<Timestamp>,
    pub description: String,
    pub completed: Option<bool>,
    pub completed_at: Option<Timestamp>,
}

pub struct SubTodoView {
    pub uuid: Option<Uuid>,
    pub parent_uuid: Option<Uuid>,
    pub created_at: Option<Timestamp>,
    pub updated_at: Option<Timestamp>,
    pub description: Seq<char>,
    pub completed: Option<bool>,
    pub completed_at: Option<Timestamp>,
}

impl View for SubTodo {
    type V = SubTodoView;

    open spec fn view(&self) -> SubTodoView {
        SubTodoView {
            uuid: self.uuid,
            parent_uuid: self.parent_uuid,
            created_at: self.created_at,
            updated_at: self.updated_at,
            description: self.description@,
            completed: self.completed,
            completed_at: self.completed_at,
        }
    }
}

impl SubTodoView {
    /// The same sub-todo without the fields that the server assigns.
    pub open spec fn without_server_fields(self) -> SubTodoView {
        SubTodoView { uuid: None, created_at: None, updated_at: None, ..self }
    }

    /// Every instant and identifier in the sub-todo reads back from its text.
    pub open spec fn reads_back(self) -> bool {
        &&& opt_uuid_reads_back(self.uuid)
        &&& opt_uuid_reads_back(self.parent_uuid)
        &&& opt_time_reads_back(self.created_at)
        &&& opt_time_reads_back(self.updated_at)
        &&& opt_time_reads_back(self.completed_at)
    }
}

/// The JSON members of a sub-todo: one per field that holds a value, in
/// declaration order.
pub open spec fn subtodo_json(t: SubTodoView) -> Seq<(Seq<char>, Json)> {
    entry("uuid"@, opt_uuid_json(t.uuid))
        + entry("parent_uuid"@, opt_uuid_json(t.parent_uuid))
        + entry("created_at"@, opt_time_json(t.created_at))
        + entry("updated_at"@, opt_time_json(t.updated_at))
        + entry("description"@, Some(Json::Text(t.description)))
        + entry("completed"@, opt_bool_json(t.completed))
        + entry("completed_at"@, opt_time_json(t.completed_at))
}

/// The sub-todo that JSON members describe, if they describe one.
pub open spec fn subtodo_from_json(f: Seq<(Seq<char>, Json)>) -> Option<SubTodoView> {
    let uuid = read_opt_uuid(f, "uuid"@);
    let parent_uuid = read_opt_uuid(f, "parent_uuid"@);
    let created_at = read_opt_time(f, "created_at"@);
    let updated_at = read_opt_time(f, "updated_at"@);
    let description = read_text(f, "description"@);
    let completed = read_opt_bool(f, "completed"@);
    let completed_at = read_opt_time(f, "completed_at"@);
    if uuid is Some && parent_uuid is Some && created_at is Some && updated_at is Some
        && description is Some && completed is Some && completed_at is Some {
        Some(
            SubTodoView {
                uuid: uuid->0,
                parent_uuid: parent_uuid->0,
                created_at: created_at->0,
                updated_at: updated_at->0,
                description: description->0,
                completed: completed->0,
                completed_at: completed_at->0,
            },
        )
    } else {
        None
    }
}

/// Looking up each key of the members finds what its field holds.
proof fn lemma_todo_json_lookup(t: TodoView)
    ensures
        lookup(todo_json(t), "uuid"@) == opt_uuid_json(t.uuid),
        lookup(todo_json(t), "created_at"@) == opt_time_json(t.created_at),
        lookup(todo_json(t), "updated_at"@) == opt_time_json(t.updated_at),
        lookup(todo_json(t), "description"@) == Some(Json::Text(t.description)),
        lookup(todo_json(t), "notice"@) == opt_text_json(t.notice),
        lookup(todo_json(t), "pin"@) == opt_bool_json(t.pin),
        lookup(todo_json(t), "completed"@) == opt_bool_json(t.completed),
        lookup(todo_json(t), "completed_at"@) == opt_time_json(t.completed_at),
        lookup(todo_json(t), "repeat_type"@) == opt_repeat_json(t.repeat_type),
        lookup(todo_json(t), "remind_time"@) == opt_time_json(t.remind_time),
        lookup(todo_json(t), "estimated_pomo_count"@) == opt_count_json(t.estimated_pomo_count),
        lookup(todo_json(t), "costed_pomo_count"@) == opt_count_json(t.costed_pomo_count),
        lookup(todo_json(t), "sub_todos"@) is None,
{
    reveal_strlit("sub_todos");
    assert("sub_todos"@.len() == 9 && "sub_todos"@[0] == 's');
    reveal_strlit("uuid");
    assert("uuid"@.len() == 4 && "uuid"@[0] == 'u');
    reveal_strlit("created_at");
    assert("created_at"@.len() == 10 && "created_at"@[0] == 'c');
    reveal_strlit("updated_at");
    assert("updated_at"@.len() == 10 && "updated_at"@[0] == 'u');
    reveal_strlit("description");
    assert("description"@.len() == 11 && "description"@[0] == 'd');
    reveal_strlit("notice");
    assert("notice"@.len() == 6 && "notice"@[0] == 'n');
    reveal_strlit("pin");
    assert("pin"@.len() == 3 && "pin"@[0] == 'p');
    reveal_strlit("completed");
    assert("completed"@.len() == 9 && "completed"@[0] == 'c');
    reveal_strlit("completed_at");
    assert("completed_at"@.len() == 12 && "completed_at"@[0] == 'c');
    reveal_strlit("repeat_type");
    assert("repeat_type"@.len() == 11 && "repeat_type"@[0] == 'r' && "repeat_type"@[2] == 'p');
    reveal_strlit("remind_time");
    assert("remind_time"@.len() == 11 && "remind_time"@[0] == 'r' && "remind_time"@[2] == 'm');
    reveal_strlit("estimated_pomo_count");
    assert("estimated_pomo_count"@.len() == 20 && "estimated_pomo_count"@[0] == 'e');
    reveal_strlit("costed_pomo_count");
    assert("costed_pomo_count"@.len() == 17 && "costed_pomo_count"@[0] == 'c');
    let e0 = entry("uuid"@, opt_uuid_json(t.uuid));
    let e1 = entry("created_at"@, opt_time_json(t.created_at));
    let e2 = entry("updated_at"@, opt_time_json(t.updated_at));
    let e3 = entry("description"@, Some(Json::Text(t.description)));
    let e4 = entry("notice"@, opt_text_json(t.notice));
    let e5 = entry("pin"@, opt_bool_json(t.pin));
    let e6 = entry("completed"@, opt_bool_json(t.completed));
    let e7 = entry("completed_at"@, opt_time_json(t.completed_at));
    let e8 = entry("repeat_type"@, opt_repeat_json(t.repeat_type));
    let e9 = entry("remind_time"@, opt_time_json(t.remind_time));
    let e10 = entry("estimated_pomo_count"@, opt_count_json(t.estimated_pomo_count));
    let e11 = entry("costed_pomo_count"@, opt_count_json(t.costed_pomo_count));
    assert(todo_json(t) == e0 + e1 + e2 + e3 + e4 + e5 + e6 + e7 + e8 + e9 + e10 + e11);
    assert(lookup(todo_json(t), "uuid"@) == opt_uuid_json(t.uuid)) by {
        let k = "uuid"@;
        lemma_lookup_entry("uuid"@, opt_uuid_json(t.uuid), k);
        lemma_lookup_entry("created_at"@, opt_time_json(t.created_at), k);
        lemma_lookup_entry("updated_at"@, opt_time_json(t.updated_at), k);
        lemma_lookup_entry("description"@, Some(Json::Text(t.description)), k);
        lemma_lookup_entry("notice"@, opt_text_json(t.notice), k);
        lemma_lookup_entry("pin"@, opt_bool_json(t.pin), k);
        lemma_lookup_entry("completed"@, opt_bool_json(t.completed), k);
        lemma_lookup_entry("completed_at"@, opt_time_json(t.completed_at), k);
        lemma_lookup_entry("repeat_type"@, opt_repeat_json(t.repeat_type), k);
        lemma_lookup_entry("remind_time"@, opt_time_json(t.remind_time), k);
        lemma_lookup_entry("estimated_pomo_count"@, opt_count_json(t.estimated_pomo_count), k);
        lemma_lookup_entry("costed_pomo_count"@, opt_count_json(t.costed_pomo_count), k);
        lemma_lookup_concat(e0 + e1 + e2 + e3 + e4 + e5 + e6 + e7 + e8 + e9 + e10, e11, k);
        lemma_lookup_concat(e0 + e1 + e2 + e3 + e4 + e5 + e6 + e7 + e8 + e9, e10, k);
        lemma_lookup_concat(e0 + e1 + e2 + e3 + e4 + e5 + e6 + e7 + e8, e9, k);
        lemma_lookup_concat(e0 + e1 + e2 + e3 + e4 + e5 + e6 + e7, e8, k);
        lemma_lookup_concat(e0 + e1 + e2 + e3 + e4 + e5 + e6, e7, k);
        lemma_lookup_concat(e0 + e1 + e2 + e3 + e4 + e5, e6, k);
        lemma_lookup_concat(e0 + e1 + e2 + e3 + e4, e5, k);
        lemma_lookup_concat(e0 + e1 + e2 + e3, e4, k);
        lemma_lookup_concat(e0 + e1 + e2, e3, k);
        lemma_lookup_concat(e0 + e1, e2, k);
        lemma_lookup_concat(e0, e1, k);
    }
    assert(lookup(todo_json(t), "created_at"@) == opt_time_json(t.created_at)) by {
        let k = "created_at"@;
        lemma_lookup_entry("uuid"@, opt_uuid_json(t.uuid), k);
        lemma_lookup_entry("created_at"@, opt_time_json(t.created_at), k);
        lemma_lookup_entry("updated_at"@, opt_time_json(t.updated_at), k);
        lemma_lookup_entry("description"@, Some(Json::Text(t.description)), k);
        lemma_lookup_entry("notice"@, opt_text_json(t.notice), k);
        lemma_lookup_entry("pin"@, opt_bool_json(t.pin), k);
        lemma_lookup_entry("completed"@, opt_bool_json(t.completed), k);
        lemma_lookup_entry("completed_at"@, opt_time_json(t.completed_at), k);
        lemma_lookup_entry("repeat_type"@, opt_repeat_json(t.repeat_type), k);
        lemma_lookup_entry("remind_time"@, opt_time_json(t.remind_time), k);
        lemma_lookup_entry("estimated_pomo_count"@, opt_count_json(t.estimated_pomo_count), k);
        lemma_lookup_entry("costed_pomo_count"@, opt_count_json(t.costed_pomo_count), k);
        lemma_lookup_concat(e0 + e1 + e2 + e3 + e4 + e5 + e6 + e7 + e8 + e9 + e10, e11, k);
        lemma_lookup_concat(e0 + e1 + e2 + e3 + e4 + e5 + e6 + e7 + e8 + e9, e10, k);
        lemma_lookup_concat(e0 + e1 + e2 + e3 + e4 + e5 + e6 + e7 + e8, e9, k);
        lemma_lookup_concat(e0 + e1 + e2 + e3 + e4 + e5 + e6 + e7, e8, k);
        lemma_lookup_concat(e0 + e1 + e2 + e3 + e4 + e5 + e6, e7, k);
        lemma_lookup_concat(e0 + e1 + e2 + e3 + e4 + e5, e6, k);
        lemma_lookup_concat(e0 + e1 + e2 + e3 + e4, e5, k);
        lemma_lookup_concat(e0 + e1 + e2 + e3, e4, k);
        lemma_lookup_concat(e0 + e1 + e2, e3, k);
        lemma_lookup_concat(e0 + e1, e2, k);
        lemma_lookup_concat(e0, e1, k);
    }
    assert(lookup(todo_json(t), "updated_at"@) == opt_time_json(t.updated_at)) by {
        let k = "updated_at"@;
        lemma_lookup_entry("uuid"@, opt_uuid_json(t.uuid), k);
        lemma_lookup_entry("created_at"@, opt_time_json(t.created_at), k);
        lemma_lookup_entry("updated_at"@, opt_time_json(t.updated_at), k);
        lemma_lookup_entry("description"@, Some(Json::Text(t.description)), k);
        lemma_lookup_entry("notice"@, opt_text_json(t.notice), k);
        lemma_lookup_entry("pin"@, opt_bool_json(t.pin), k);
        lemma_lookup_entry("completed"@, opt_bool_json(t.completed), k);
        lemma_lookup_entry("completed_at"@, opt_time_json(t.completed_at), k);
        lemma_lookup_entry("repeat_type"@, opt_repeat_json(t.repeat_type), k);
        lemma_lookup_entry("remind_time"@, opt_time_json(t.remind_time), k);
        lemma_lookup_entry("estimated_pomo_count"@, opt_count_json(t.estimated_pomo_count), k);
        lemma_lookup_entry("costed_pomo_count"@, opt_count_json(t.costed_pomo_count), k);
        lemma_lookup_concat(e0 + e1 + e2 + e3 + e4 + e5 + e6 + e7 + e8 + e9 + e10, e11, k);
        lemma_lookup_concat(e0 + e1 + e2 + e3 + e4 + e5 + e6 + e7 + e8 + e9, e10, k);
        lemma_lookup_concat(e0 + e1 + e2 + e3 + e4 + e5 + e6 + e7 + e8, e9, k);
        lemma_lookup_concat(e0 + e1 + e2 + e3 + e4 + e5 + e6 + e7, e8, k);
        lemma_lookup_concat(e0 + e1 + e2 + e3 + e4 + e5 + e6, e7, k);
        lemma_lookup_concat(e0 + e1 + e2 + e3 + e4 + e5, e6, k);
        lemma_lookup_concat(e0 + e1 + e2 + e3 + e4, e5, k);
        lemma_lookup_concat(e0 + e1 + e2 + e3, e4, k);
        lemma_lookup_concat(e0 + e1 + e2, e3, k);
        lemma_lookup_concat(e0 + e1, e2, k);
        lemma_lookup_concat(e0, e1, k);
    }
    assert(lookup(todo_json(t), "description"@) == Some(Json::Text(t.description))) by {
        let k = "description"@;
        lemma_lookup_entry("uuid"@, opt_uuid_json(t.uuid), k);
        lemma_lookup_entry("created_at"@, opt_time_json(t.created_at), k);
        lemma_lookup_entry("updated_at"@, opt_time_json(t.updated_at), k);
        lemma_lookup_entry("description"@, Some(Json::Text(t.description)), k);
        lemma_lookup_entry("notice"@, opt_text_json(t.notice), k);
        lemma_lookup_entry("pin"@, opt_bool_json(t.pin), k);
        lemma_lookup_entry("completed"@, opt_bool_json(t.completed), k);
        lemma_lookup_entry("completed_at"@, opt_time_json(t.completed_at), k);
        lemma_lookup_entry("repeat_type"@, opt_repeat_json(t.repeat_type), k);
        lemma_lookup_entry("remind_time"@, opt_time_json(t.remind_time), k);
        lemma_lookup_entry("estimated_pomo_count"@, opt_count_json(t.estimated_pomo_count), k);
        lemma_lookup_entry("costed_pomo_count"@, opt_count_json(t.costed_pomo_count), k);
        lemma_lookup_concat(e0 + e1 + e2 + e3 + e4 + e5 + e6 + e7 + e8 + e9 + e10, e11, k);
        lemma_lookup_concat(e0 + e1 + e2 + e3 + e4 + e5 + e6 + e7 + e8 + e9, e10, k);
        lemma_lookup_concat(e0 + e1 + e2 + e3 + e4 + e5 + e6 + e7 + e8, e9, k);
        lemma_lookup_concat(e0 + e1 + e2 + e3 + e4 + e5 + e6 + e7, e8, k);
        lemma_lookup_concat(e0 + e1 + e2 + e3 + e4 + e5 + e6, e7, k);
        lemma_lookup_concat(e0 + e1 + e2 + e3 + e4 + e5, e6, k);
        lemma_lookup_concat(e0 + e1 + e2 + e3 + e4, e5, k);
        lemma_lookup_concat(e0 + e1 + e2 + e3, e4, k);
        lemma_lookup_concat(e0 + e1 + e2, e3, k);
        lemma_lookup_concat(e0 + e1, e2, k);
        lemma_lookup_concat(e0, e1, k);
    }
    assert(lookup(todo_json(t), "notice"@) == opt_text_json(t.notice)) by {
        let k = "notice"@;
        lemma_lookup_entry("uuid"@, opt_uuid_json(t.uuid), k);
        lemma_lookup_entry("created_at"@, opt_time_json(t.created_at), k);
        lemma_lookup_entry("updated_at"@, opt_time_json(t.updated_at), k);
        lemma_lookup_entry("description"@, Some(Json::Text(t.description)), k);
        lemma_lookup_entry("notice"@, opt_text_json(t.notice), k);
        lemma_lookup_entry("pin"@, opt_bool_json(t.pin), k);
        lemma_lookup_entry("completed"@, opt_bool_json(t.completed), k);
        lemma_lookup_entry("completed_at"@, opt_time_json(t.completed_at), k);
        lemma_lookup_entry("repeat_type"@, opt_repeat_json(t.repeat_type), k);
        lemma_lookup_entry("remind_time"@, opt_time_json(t.remind_time), k);
        lemma_lookup_entry("estimated_pomo_count"@, opt_count_json(t.estimated_pomo_count), k);
        lemma_lookup_entry("costed_pomo_count"@, opt_count_json(t.costed_pomo_count), k);
        lemma_lookup_concat(e0 + e1 + e2 + e3 + e4 + e5 + e6 + e7 + e8 + e9 + e10, e11, k);
        lemma_lookup_concat(e0 + e1 + e2 + e3 + e4 + e5 + e6 + e7 + e8 + e9, e10, k);
        lemma_lookup_concat(e0 + e1 + e2 + e3 + e4 + e5 + e6 + e7 + e8, e9, k);
        lemma_lookup_concat(e0 + e1 + e2 + e3 + e4 + e5 + e6 + e7, e8, k);
        lemma_lookup_concat(e0 + e1 + e2 + e3 + e4 + e5 + e6, e7, k);
        lemma_lookup_concat(e0 + e1 + e2 + e3 + e4 + e5, e6, k);
        lemma_lookup_concat(e0 + e1 + e2 + e3 + e4, e5, k);
        lemma_lookup_concat(e0 + e1 + e2 + e3, e4, k);
        lemma_lookup_concat(e0 + e1 + e2, e3, k);
        lemma_lookup_concat(e0 + e1, e2, k);
        lemma_lookup_concat(e0, e1, k);
    }
    assert(lookup(todo_json(t), "pin"@) == opt_bool_json(t.pin)) by {
        let k = "pin"@;
        lemma_lookup_entry("uuid"@, opt_uuid_json(t.uuid), k);
        lemma_lookup_entry("created_at"@, opt_time_json(t.created_at), k);
        lemma_lookup_entry("updated_at"@, opt_time_json(t.updated_at), k);
        lemma_lookup_entry("description"@, Some(Json::Text(t.description)), k);
        lemma_lookup_entry("notice"@, opt_text_json(t.notice), k);
        lemma_lookup_entry("pin"@, opt_bool_json(t.pin), k);
        lemma_lookup_entry("completed"@, opt_bool_json(t.completed), k);
        lemma_lookup_entry("completed_at"@, opt_time_json(t.completed_at), k);
        lemma_lookup_entry("repeat_type"@, opt_repeat_json(t.repeat_type), k);
        lemma_lookup_entry("remind_time"@, opt_time_json(t.remind_time), k);
        lemma_lookup_entry("estimated_pomo_count"@, opt_count_json(t.estimated_pomo_count), k);
        lemma_lookup_entry("costed_pomo_count"@, opt_count_json(t.costed_pomo_count), k);
        lemma_lookup_concat(e0 + e1 + e2 + e3 + e4 + e5 + e6 + e7 + e8 + e9 + e10, e11, k);
        lemma_lookup_concat(e0 + e1 + e2 + e3 + e4 + e5 + e6 + e7 + e8 + e9, e10, k);
        lemma_lookup_concat(e0 + e1 + e2 + e3 + e4 + e5 + e6 + e7 + e8, e9, k);
        lemma_lookup_concat(e0 + e1 + e2 + e3 + e4 + e5 + e6 + e7, e8, k);
        lemma_lookup_concat(e0 + e1 + e2 + e3 + e4 + e5 + e6, e7, k);
        lemma_lookup_concat(e0 + e1 + e2 + e3 + e4 + e5, e6, k);
        lemma_lookup_concat(e0 + e1 + e2 + e3 + e4, e5, k);
        lemma_lookup_concat(e0 + e1 + e2 + e3, e4, k);
        lemma_lookup_concat(e0 + e1 + e2, e3, k);
        lemma_lookup_concat(e0 + e1, e2, k);
        lemma_lookup_concat(e0, e1, k);
    }
    assert(lookup(todo_json(t), "completed"@) == opt_bool_json(t.completed)) by {
        let k = "completed"@;
        lemma_lookup_entry("uuid"@, opt_uuid_json(t.uuid), k);
        lemma_lookup_entry("created_at"@, opt_time_json(t.created_at), k);
        lemma_lookup_entry("updated_at"@, opt_time_json(t.updated_at), k);
        lemma_lookup_entry("description"@, Some(Json::Text(t.description)), k);
        lemma_lookup_entry("notice"@, opt_text_json(t.notice), k);
        lemma_lookup_entry("pin"@, opt_bool_json(t.pin), k);
        lemma_lookup_entry("completed"@, opt_bool_json(t.completed), k);
        lemma_lookup_entry("completed_at"@, opt_time_json(t.completed_at), k);
        lemma_lookup_entry("repeat_type"@, opt_repeat_json(t.repeat_type), k);
        lemma_lookup_entry("remind_time"@, opt_time_json(t.remind_time), k);
        lemma_lookup_entry("estimated_pomo_count"@, opt_count_json(t.estimated_pomo_count), k);
        lemma_lookup_entry("costed_pomo_count"@, opt_count_json(t.costed_pomo_count), k);
        lemma_lookup_concat(e0 + e1 + e2 + e3 + e4 + e5 + e6 + e7 + e8 + e9 + e10, e11, k);
        lemma_lookup_concat(e0 + e1 + e2 + e3 + e4 + e5 + e6 + e7 + e8 + e9, e10, k);
        lemma_lookup_concat(e0 + e1 + e2 + e3 + e4 + e5 + e6 + e7 + e8, e9, k);
        lemma_lookup_concat(e0 + e1 + e2 + e3 + e4 + e5 + e6 + e7, e8, k);
        lemma_lookup_concat(e0 + e1 + e2 + e3 + e4 + e5 + e6, e7, k);
        lemma_lookup_concat(e0 + e1 + e2 + e3 + e4 + e5, e6, k);
        lemma_lookup_concat(e0 + e1 + e2 + e3 + e4, e5, k);
        lemma_lookup_concat(e0 + e1 + e2 + e3, e4, k);
        lemma_lookup_concat(e0 + e1 + e2, e3, k);
        lemma_lookup_concat(e0 + e1, e2, k);
        lemma_lookup_concat(e0, e1, k);
    }
    assert(lookup(todo_json(t), "completed_at"@) == opt_time_json(t.completed_at)) by {
        let k = "completed_at"@;
        lemma_lookup_entry("uuid"@, opt_uuid_json(t.uuid), k);
        lemma_lookup_entry("created_at"@, opt_time_json(t.created_at), k);
        lemma_lookup_entry("updated_at"@, opt_time_json(t.updated_at), k);
        lemma_lookup_entry("description"@, Some(Json::Text(t.description)), k);
        lemma_lookup_entry("notice"@, opt_text_json(t.notice), k);
        lemma_lookup_entry("pin"@, opt_bool_json(t.pin), k);
        lemma_lookup_entry("completed"@, opt_bool_json(t.completed), k);
        lemma_lookup_entry("completed_at"@, opt_time_json(t.completed_at), k);
        lemma_lookup_entry("repeat_type"@, opt_repeat_json(t.repeat_type), k);
        lemma_lookup_entry("remind_time"@, opt_time_json(t.remind_time), k);
        lemma_lookup_entry("estimated_pomo_count"@, opt_count_json(t.estimated_pomo_count), k);
        lemma_lookup_entry("costed_pomo_count"@, opt_count_json(t.costed_pomo_count), k);
        lemma_lookup_concat(e0 + e1 + e2 + e3 + e4 + e5 + e6 + e7 + e8 + e9 + e10, e11, k);
        lemma_lookup_concat(e0 + e1 + e2 + e3 + e4 + e5 + e6 + e7 + e8 + e9, e10, k);
        lemma_lookup_concat(e0 + e1 + e2 + e3 + e4 + e5 + e6 + e7 + e8, e9, k);
        lemma_lookup_concat(e0 + e1 + e2 + e3 + e4 + e5 + e6 + e7, e8, k);
        lemma_lookup_concat(e0 + e1 + e2 + e3 + e4 + e5 + e6, e7, k);
        lemma_lookup_concat(e0 + e1 + e2 + e3 + e4 + e5, e6, k);
        lemma_lookup_concat(e0 + e1 + e2 + e3 + e4, e5, k);
        lemma_lookup_concat(e0 + e1 + e2 + e3, e4, k);
        lemma_lookup_concat(e0 + e1 + e2, e3, k);
        lemma_lookup_concat(e0 + e1, e2, k);
        lemma_lookup_concat(e0, e1, k);
    }
    assert(lookup(todo_json(t), "repeat_type"@) == opt_repeat_json(t.repeat_type)) by {
        let k = "repeat_type"@;
        lemma_lookup_entry("uuid"@, opt_uuid_json(t.uuid), k);
        lemma_lookup_entry("created_at"@, opt_time_json(t.created_at), k);
        lemma_lookup_entry("updated_at"@, opt_time_json(t.updated_at), k);
        lemma_lookup_entry("description"@, Some(Json::Text(t.description)), k);
        lemma_lookup_entry("notice"@, opt_text_json(t.notice), k);
        lemma_lookup_entry("pin"@, opt_bool_json(t.pin), k);
        lemma_lookup_entry("completed"@, opt_bool_json(t.completed), k);
        lemma_lookup_entry("completed_at"@, opt_time_json(t.completed_at), k);
        lemma_lookup_entry("repeat_type"@, opt_repeat_json(t.repeat_type), k);
        lemma_lookup_entry("remind_time"@, opt_time_json(t.remind_time), k);
        lemma_lookup_entry("estimated_pomo_count"@, opt_count_json(t.estimated_pomo_count), k);
        lemma_lookup_entry("costed_pomo_count"@, opt_count_json(t.costed_pomo_count), k);
        lemma_lookup_concat(e0 + e1 + e2 + e3 + e4 + e5 + e6 + e7 + e8 + e9 + e10, e11, k);
        lemma_lookup_concat(e0 + e1 + e2 + e3 + e4 + e5 + e6 + e7 + e8 + e9, e10, k);
        lemma_lookup_concat(e0 + e1 + e2 + e3 + e4 + e5 + e6 + e7 + e8, e9, k);
        lemma_lookup_concat(e0 + e1 + e2 + e3 + e4 + e5 + e6 + e7, e8, k);
        lemma_lookup_concat(e0 + e1 + e2 + e3 + e4 + e5 + e6, e7, k);
        lemma_lookup_concat(e0 + e1 + e2 + e3 + e4 + e5, e6, k);
        lemma_lookup_concat(e0 + e1 + e2 + e3 + e4, e5, k);
        lemma_lookup_concat(e0 + e1 + e2 + e3, e4, k);
        lemma_lookup_concat(e0 + e1 + e2, e3, k);
        lemma_lookup_concat(e0 + e1, e2, k);
        lemma_lookup_concat(e0, e1, k);
    }
    assert(lookup(todo_json(t), "remind_time"@) == opt_time_json(t.remind_time)) by {
        let k = "remind_time"@;
        lemma_lookup_entry("uuid"@, opt_uuid_json(t.uuid), k);
        lemma_lookup_entry("created_at"@, opt_time_json(t.created_at), k);
        lemma_lookup_entry("updated_at"@, opt_time_json(t.updated_at), k);
        lemma_lookup_entry("description"@, Some(Json::Text(t.description)), k);
        lemma_lookup_entry("notice"@, opt_text_json(t.notice), k);
        lemma_lookup_entry("pin"@, opt_bool_json(t.pin), k);
        lemma_lookup_entry("completed"@, opt_bool_json(t.completed), k);
        lemma_lookup_entry("completed_at"@, opt_time_json(t.completed_at), k);
        lemma_lookup_entry("repeat_type"@, opt_repeat_json(t.repeat_type), k);
        lemma_lookup_entry("remind_time"@, opt_time_json(t.remind_time), k);
        lemma_lookup_entry("estimated_pomo_count"@, opt_count_json(t.estimated_pomo_count), k);
        lemma_lookup_entry("costed_pomo_count"@, opt_count_json(t.costed_pomo_count), k);
        lemma_lookup_concat(e0 + e1 + e2 + e3 + e4 + e5 + e6 + e7 + e8 + e9 + e10, e11, k);
        lemma_lookup_concat(e0 + e1 + e2 + e3 + e4 + e5 + e6 + e7 + e8 + e9, e10, k);
        lemma_lookup_concat(e0 + e1 + e2 + e3 + e4 + e5 + e6 + e7 + e8, e9, k);
        lemma_lookup_concat(e0 + e1 + e2 + e3 + e4 + e5 + e6 + e7, e8, k);
        lemma_lookup_concat(e0 + e1 + e2 + e3 + e4 + e5 + e6, e7, k);
        lemma_lookup_concat(e0 + e1 + e2 + e3 + e4 + e5, e6, k);
        lemma_lookup_concat(e0 + e1 + e2 + e3 + e4, e5, k);
        lemma_lookup_concat(e0 + e1 + e2 + e3, e4, k);
        lemma_lookup_concat(e0 + e1 + e2, e3, k);
        lemma_lookup_concat(e0 + e1, e2, k);
        lemma_lookup_concat(e0, e1, k);
    }
    assert(lookup(todo_json(t), "estimated_pomo_count"@) == opt_count_json(t.estimated_pomo_count)) by {
        let k = "estimated_pomo_count"@;
        lemma_lookup_entry("uuid"@, opt_uuid_json(t.uuid), k);
        lemma_lookup_entry("created_at"@, opt_time_json(t.created_at), k);
        lemma_lookup_entry("updated_at"@, opt_time_json(t.updated_at), k);
        lemma_lookup_entry("description"@, Some(Json::Text(t.description)), k);
        lemma_lookup_entry("notice"@, opt_text_json(t.notice), k);
        lemma_lookup_entry("pin"@, opt_bool_json(t.pin), k);
        lemma_lookup_entry("completed"@, opt_bool_json(t.completed), k);
        lemma_lookup_entry("completed_at"@, opt_time_json(t.completed_at), k);
        lemma_lookup_entry("repeat_type"@, opt_repeat_json(t.repeat_type), k);
        lemma_lookup_entry("remind_time"@, opt_time_json(t.remind_time), k);
        lemma_lookup_entry("estimated_pomo_count"@, opt_count_json(t.estimated_pomo_count), k);
        lemma_lookup_entry("costed_pomo_count"@, opt_count_json(t.costed_pomo_count), k);
        lemma_lookup_concat(e0 + e1 + e2 + e3 + e4 + e5 + e6 + e7 + e8 + e9 + e10, e11, k);
        lemma_lookup_concat(e0 + e1 + e2 + e3 + e4 + e5 + e6 + e7 + e8 + e9, e10, k);
        lemma_lookup_concat(e0 + e1 + e2 + e3 + e4 + e5 + e6 + e7 + e8, e9, k);
        lemma_lookup_concat(e0 + e1 + e2 + e3 + e4 + e5 + e6 + e7, e8, k);
        lemma_lookup_concat(e0 + e1 + e2 + e3 + e4 + e5 + e6, e7, k);
        lemma_lookup_concat(e0 + e1 + e2 + e3 + e4 + e5, e6, k);
        lemma_lookup_concat(e0 + e1 + e2 + e3 + e4, e5, k);
        lemma_lookup_concat(e0 + e1 + e2 + e3, e4, k);
        lemma_lookup_concat(e0 + e1 + e2, e3, k);
        lemma_lookup_concat(e0 + e1, e2, k);
        lemma_lookup_concat(e0, e1, k);
    }
    assert(lookup(todo_json(t), "costed_pomo_count"@) == opt_count_json(t.costed_pomo_count)) by {
        let k = "costed_pomo_count"@;
        lemma_lookup_entry("uuid"@, opt_uuid_json(t.uuid), k);
        lemma_lookup_entry("created_at"@, opt_time_json(t.created_at), k);
        lemma_lookup_entry("updated_at"@, opt_time_json(t.updated_at), k);
        lemma_lookup_entry("description"@, Some(Json::Text(t.description)), k);
        lemma_lookup_entry("notice"@, opt_text_json(t.notice), k);
        lemma_lookup_entry("pin"@, opt_bool_json(t.pin), k);
        lemma_lookup_entry("completed"@, opt_bool_json(t.completed), k);
        lemma_lookup_entry("completed_at"@, opt_time_json(t.completed_at), k);
        lemma_lookup_entry("repeat_type"@, opt_repeat_json(t.repeat_type), k);
        lemma_lookup_entry("remind_time"@, opt_time_json(t.remind_time), k);
        lemma_lookup_entry("estimated_pomo_count"@, opt_count_json(t.estimated_pomo_count), k);
        lemma_lookup_entry("costed_pomo_count"@, opt_count_json(t.costed_pomo_count), k);
        lemma_lookup_concat(e0 + e1 + e2 + e3 + e4 + e5 + e6 + e7 + e8 + e9 + e10, e11, k);
        lemma_lookup_concat(e0 + e1 + e2 + e3 + e4 + e5 + e6 + e7 + e8 + e9, e10, k);
        lemma_lookup_concat(e0 + e1 + e2 + e3 + e4 + e5 + e6 + e7 + e8, e9, k);
        lemma_lookup_concat(e0 + e1 + e2 + e3 + e4 + e5 + e6 + e7, e8, k);
        lemma_lookup_concat(e0 + e1 + e2 + e3 + e4 + e5 + e6, e7, k);
        lemma_lookup_concat(e0 + e1 + e2 + e3 + e4 + e5, e6, k);
        lemma_lookup_concat(e0 + e1 + e2 + e3 + e4, e5, k);
        lemma_lookup_concat(e0 + e1 + e2 + e3, e4, k);
        lemma_lookup_concat(e0 + e1 + e2, e3, k);
        lemma_lookup_concat(e0 + e1, e2, k);
        lemma_lookup_concat(e0, e1, k);
    }
    assert(lookup(todo_json(t), "sub_todos"@) is None) by {
        let k = "sub_todos"@;
        lemma_lookup_entry("uuid"@, opt_uuid_json(t.uuid), k);
        lemma_lookup_entry("created_at"@, opt_time_json(t.created_at), k);
        lemma_lookup_entry("updated_at"@, opt_time_json(t.updated_at), k);
        lemma_lookup_entry("description"@, Some(Json::Text(t.description)), k);
        lemma_lookup_entry("notice"@, opt_text_json(t.notice), k);
        lemma_lookup_entry("pin"@, opt_bool_json(t.pin), k);
        lemma_lookup_entry("completed"@, opt_bool_json(t.completed), k);
        lemma_lookup_entry("completed_at"@, opt_time_json(t.completed_at), k);
        lemma_lookup_entry("repeat_type"@, opt_repeat_json(t.repeat_type), k);
        lemma_lookup_entry("remind_time"@, opt_time_json(t.remind_time), k);
        lemma_lookup_entry("estimated_pomo_count"@, opt_count_json(t.estimated_pomo_count), k);
        lemma_lookup_entry("costed_pomo_count"@, opt_count_json(t.costed_pomo_count), k);
        lemma_lookup_concat(e0 + e1 + e2 + e3 + e4 + e5 + e6 + e7 + e8 + e9 + e10, e11, k);
        lemma_lookup_concat(e0 + e1 + e2 + e3 + e4 + e5 + e6 + e7 + e8 + e9, e10, k);
        lemma_lookup_concat(e0 + e1 + e2 + e3 + e4 + e5 + e6 + e7 + e8, e9, k);
        lemma_lookup_concat(e0 + e1 + e2 + e3 + e4 + e5 + e6 + e7, e8, k);
        lemma_lookup_concat(e0 + e1 + e2 + e3 + e4 + e5 + e6, e7, k);
        lemma_lookup_concat(e0 + e1 + e2 + e3 + e4 + e5, e6, k);
        lemma_lookup_concat(e0 + e1 + e2 + e3 + e4, e5, k);
        lemma_lookup_concat(e0 + e1 + e2 + e3, e4, k);
        lemma_lookup_concat(e0 + e1 + e2, e3, k);
        lemma_lookup_concat(e0 + e1, e2, k);
        lemma_lookup_concat(e0, e1, k);
    }
}

/// Looking up each key of the members finds what its field holds.
proof fn lemma_subtodo_json_lookup(t: SubTodoView)
    ensures
        lookup(subtodo_json(t), "uuid"@) == opt_uuid_json(t.uuid),
        lookup(subtodo_json(t), "parent_uuid"@) == opt_uuid_json(t.parent_uuid),
        lookup(subtodo_json(t), "created_at"@) == opt_time_json(t.created_at),
        lookup(subtodo_json(t), "updated_at"@) == opt_time_json(t.updated_at),
        lookup(subtodo_json(t), "description"@) == Some(Json::Text(t.description)),
        lookup(subtodo_json(t), "completed"@) == opt_bool_json(t.completed),
        lookup(subtodo_json(t), "completed_at"@) == opt_time_json(t.completed_at),
{
    reveal_strlit("uuid");
    assert("uuid"@.len() == 4 && "uuid"@[0] == 'u');
    reveal_strlit("parent_uuid");
    assert("parent_uuid"@.len() == 11 && "parent_uuid"@[0] == 'p');
    reveal_strlit("created_at");
    assert("created_at"@.len() == 10 && "created_at"@[0] == 'c');
    reveal_strlit("updated_at");
    assert("updated_at"@.len() == 10 && "updated_at"@[0] == 'u');
    reveal_strlit("description");
    assert("description"@.len() == 11 && "description"@[0] == 'd');
    reveal_strlit("completed");
    assert("completed"@.len() == 9 && "completed"@[0] == 'c');
    reveal_strlit("completed_at");
    assert("completed_at"@.len() == 12 && "completed_at"@[0] == 'c');
    let e0 = entry("uuid"@, opt_uuid_json(t.uuid));
    let e1 = entry("parent_uuid"@, opt_uuid_json(t.parent_uuid));
    let e2 = entry("created_at"@, opt_time_json(t.created_at));
    let e3 = entry("updated_at"@, opt_time_json(t.updated_at));
    let e4 = entry("description"@, Some(Json::Text(t.description)));
    let e5 = entry("completed"@, opt_bool_json(t.completed));
    let e6 = entry("completed_at"@, opt_time_json(t.completed_at));
    assert(subtodo_json(t) == e0 + e1 + e2 + e3 + e4 + e5 + e6);
    assert(lookup(subtodo_json(t), "uuid"@) == opt_uuid_json(t.uuid)) by {
        let k = "uuid"@;
        lemma_lookup_entry("uuid"@, opt_uuid_json(t.uuid), k);
        lemma_lookup_entry("parent_uuid"@, opt_uuid_json(t.parent_uuid), k);
        lemma_lookup_entry("created_at"@, opt_time_json(t.created_at), k);
        lemma_lookup_entry("updated_at"@, opt_time_json(t.updated_at), k);
        lemma_lookup_entry("description"@, Some(Json::Text(t.description)), k);
        lemma_lookup_entry("completed"@, opt_bool_json(t.completed), k);
        lemma_lookup_entry("completed_at"@, opt_time_json(t.completed_at), k);
        lemma_lookup_concat(e0 + e1 + e2 + e3 + e4 + e5, e6, k);
        lemma_lookup_concat(e0 + e1 + e2 + e3 + e4, e5, k);
        lemma_lookup_concat(e0 + e1 + e2 + e3, e4, k);
        lemma_lookup_concat(e0 + e1 + e2, e3, k);
        lemma_lookup_concat(e0 + e1, e2, k);
        lemma_lookup_concat(e0, e1, k);
    }
    assert(lookup(subtodo_json(t), "parent_uuid"@) == opt_uuid_json(t.parent_uuid)) by {
        let k = "parent_uuid"@;
        lemma_lookup_entry("uuid"@, opt_uuid_json(t.uuid), k);
        lemma_lookup_entry("parent_uuid"@, opt_uuid_json(t.parent_uuid), k);
        lemma_lookup_entry("created_at"@, opt_time_json(t.created_at), k);
        lemma_lookup_entry("updated_at"@, opt_time_json(t.updated_at), k);
        lemma_lookup_entry("description"@, Some(Json::Text(t.description)), k);
        lemma_lookup_entry("completed"@, opt_bool_json(t.completed), k);
        lemma_lookup_entry("completed_at"@, opt_time_json(t.completed_at), k);
        lemma_lookup_concat(e0 + e1 + e2 + e3 + e4 + e5, e6, k);
        lemma_lookup_concat(e0 + e1 + e2 + e3 + e4, e5, k);
        lemma_lookup_concat(e0 + e1 + e2 + e3, e4, k);
        lemma_lookup_concat(e0 + e1 + e2, e3, k);
        lemma_lookup_concat(e0 + e1, e2, k);
        lemma_lookup_concat(e0, e1, k);
    }
    assert(lookup(subtodo_json(t), "created_at"@) == opt_time_json(t.created_at)) by {
        let k = "created_at"@;
        lemma_lookup_entry("uuid"@, opt_uuid_json(t.uuid), k);
        lemma_lookup_entry("parent_uuid"@, opt_uuid_json(t.parent_uuid), k);
        lemma_lookup_entry("created_at"@, opt_time_json(t.created_at), k);
        lemma_lookup_entry("updated_at"@, opt_time_json(t.updated_at), k);
        lemma_lookup_entry("description"@, Some(Json::Text(t.description)), k);
        lemma_lookup_entry("completed"@, opt_bool_json(t.completed), k);
        lemma_lookup_entry("completed_at"@, opt_time_json(t.completed_at), k);
        lemma_lookup_concat(e0 + e1 + e2 + e3 + e4 + e5, e6, k);
        lemma_lookup_concat(e0 + e1 + e2 + e3 + e4, e5, k);
        lemma_lookup_concat(e0 + e1 + e2 + e3, e4, k);
        lemma_lookup_concat(e0 + e1 + e2, e3, k);
        lemma_lookup_concat(e0 + e1, e2, k);
        lemma_lookup_concat(e0, e1, k);
    }
    assert(lookup(subtodo_json(t), "updated_at"@) == opt_time_json(t.updated_at)) by {
        let k = "updated_at"@;
        lemma_lookup_entry("uuid"@, opt_uuid_json(t.uuid), k);
        lemma_lookup_entry("parent_uuid"@, opt_uuid_json(t.parent_uuid), k);
        lemma_lookup_entry("created_at"@, opt_time_json(t.created_at), k);
        lemma_lookup_entry("updated_at"@, opt_time_json(t.updated_at), k);
        lemma_lookup_entry("description"@, Some(Json::Text(t.description)), k);
        lemma_lookup_entry("completed"@, opt_bool_json(t.completed), k);
        lemma_lookup_entry("completed_at"@, opt_time_json(t.completed_at), k);
        lemma_lookup_concat(e0 + e1 + e2 + e3 + e4 + e5, e6, k);
        lemma_lookup_concat(e0 + e1 + e2 + e3 + e4, e5, k);
        lemma_lookup_concat(e0 + e1 + e2 + e3, e4, k);
        lemma_lookup_concat(e0 + e1 + e2, e3, k);
        lemma_lookup_concat(e0 + e1, e2, k);
        lemma_lookup_concat(e0, e1, k);
    }
    assert(lookup(subtodo_json(t), "description"@) == Some(Json::Text(t.description))) by {
        let k = "description"@;
        lemma_lookup_entry("uuid"@, opt_uuid_json(t.uuid), k);
        lemma_lookup_entry("parent_uuid"@, opt_uuid_json(t.parent_uuid), k);
        lemma_lookup_entry("created_at"@, opt_time_json(t.created_at), k);
        lemma_lookup_entry("updated_at"@, opt_time_json(t.updated_at), k);
        lemma_lookup_entry("description"@, Some(Json::Text(t.description)), k);
        lemma_lookup_entry("completed"@, opt_bool_json(t.completed), k);
        lemma_lookup_entry("completed_at"@, opt_time_json(t.completed_at), k);
        lemma_lookup_concat(e0 + e1 + e2 + e3 + e4 + e5, e6, k);
        lemma_lookup_concat(e0 + e1 + e2 + e3 + e4, e5, k);
        lemma_lookup_concat(e0 + e1 + e2 + e3, e4, k);
        lemma_lookup_concat(e0 + e1 + e2, e3, k);
        lemma_lookup_concat(e0 + e1, e2, k);
        lemma_lookup_concat(e0, e1, k);
    }
    assert(lookup(subtodo_json(t), "completed"@) == opt_bool_json(t.completed)) by {
        let k = "completed"@;
        lemma_lookup_entry("uuid"@, opt_uuid_json(t.uuid), k);
        lemma_lookup_entry("parent_uuid"@, opt_uuid_json(t.parent_uuid), k);
        lemma_lookup_entry("created_at"@, opt_time_json(t.created_at), k);
        lemma_lookup_entry("updated_at"@, opt_time_json(t.updated_at), k);
        lemma_lookup_entry("description"@, Some(Json::Text(t.description)), k);
        lemma_lookup_entry("completed"@, opt_bool_json(t.completed), k);
        lemma_lookup_entry("completed_at"@, opt_time_json(t.completed_at), k);
        lemma_lookup_concat(e0 + e1 + e2 + e3 + e4 + e5, e6, k);
        lemma_lookup_concat(e0 + e1 + e2 + e3 + e4, e5, k);
        lemma_lookup_concat(e0 + e1 + e2 + e3, e4, k);
        lemma_lookup_concat(e0 + e1 + e2, e3, k);
        lemma_lookup_concat(e0 + e1, e2, k);
        lemma_lookup_concat(e0, e1, k);
    }
    assert(lookup(subtodo_json(t), "completed_at"@) == opt_time_json(t.completed_at)) by {
        let k = "completed_at"@;
        lemma_lookup_entry("uuid"@, opt_uuid_json(t.uuid), k);
        lemma_lookup_entry("parent_uuid"@, opt_uuid_json(t.parent_uuid), k);
        lemma_lookup_entry("created_at"@, opt_time_json(t.created_at), k);
        lemma_lookup_entry("updated_at"@, opt_time_json(t.updated_at), k);
        lemma_lookup_entry("description"@, Some(Json::Text(t.description)), k);
        lemma_lookup_entry("completed"@, opt_bool_json(t.completed), k);
        lemma_lookup_entry("completed_at"@, opt_time_json(t.completed_at), k);
        lemma_lookup_concat(e0 + e1 + e2 + e3 + e4 + e5, e6, k);
        lemma_lookup_concat(e0 + e1 + e2 + e3 + e4, e5, k);
        lemma_lookup_concat(e0 + e1 + e2 + e3, e4, k);
        lemma_lookup_concat(e0 + e1 + e2, e3, k);
        lemma_lookup_concat(e0 + e1, e2, k);
        lemma_lookup_concat(e0, e1, k);
    }
}

/// Encoding a todo to JSON members and decoding them gives the todo back
/// but for `sub_todos`, which is never encoded, given that its instants and
/// identifier read back from their text.
pub proof fn lemma_todo_round_trip(t: TodoView)
    requires
        t.reads_back(),
    ensures
        todo_from_json(todo_json(t)) == Some(t.without_sub_todos()),
        t.sub_todos is None ==> todo_from_json(todo_json(t)) == Some(t),
{
    lemma_todo_json_lookup(t);
    if let Some(r) = t.repeat_type {
        lemma_repeat_tokens(r, r.token());
    }
    let f = todo_json(t);
    assert(read_opt_uuid(f, "uuid"@) == Some(t.uuid));
    assert(read_opt_time(f, "created_at"@) == Some(t.created_at));
    assert(read_opt_time(f, "updated_at"@) == Some(t.updated_at));
    assert(read_text(f, "description"@) == Some(t.description));
    assert(read_opt_text(f, "notice"@) == Some(t.notice));
    assert(read_opt_bool(f, "pin"@) == Some(t.pin));
    assert(read_opt_bool(f, "completed"@) == Some(t.completed));
    assert(read_opt_time(f, "completed_at"@) == Some(t.completed_at));
    assert(read_opt_repeat(f, "repeat_type"@) == Some(t.repeat_type));
    assert(read_opt_time(f, "remind_time"@) == Some(t.remind_time));
    assert(read_opt_count(f, "estimated_pomo_count"@) == Some(t.estimated_pomo_count));
    assert(read_opt_count(f, "costed_pomo_count"@) == Some(t.costed_pomo_count));
    assert(read_opt_uuid_list(f, "sub_todos"@) == Some(None::<Seq<Uuid>>));
}

/// An optional field of a todo has a JSON member exactly when it holds a
/// value; `sub_todos` never has one.
pub proof fn lemma_todo_json_omits_absent(t: TodoView)
    ensures
        lookup(todo_json(t), "sub_todos"@) is None,
        lookup(todo_json(t), "uuid"@) is None <==> t.uuid is None,
        lookup(todo_json(t), "created_at"@) is None <==> t.created_at is None,
        lookup(todo_json(t), "updated_at"@) is None <==> t.updated_at is None,
        lookup(todo_json(t), "notice"@) is None <==> t.notice is None,
        lookup(todo_json(t), "pin"@) is None <==> t.pin is None,
        lookup(todo_json(t), "completed"@) is None <==> t.completed is None,
        lookup(todo_json(t), "completed_at"@) is None <==> t.completed_at is None,
        lookup(todo_json(t), "repeat_type"@) is None <==> t.repeat_type is None,
        lookup(todo_json(t), "remind_time"@) is None <==> t.remind_time is None,
        lookup(todo_json(t), "estimated_pomo_count"@) is None <==> t.estimated_pomo_count is None,
        lookup(todo_json(t), "costed_pomo_count"@) is None <==> t.costed_pomo_count is None,
{
    lemma_todo_json_lookup(t);
}

/// Encoding a sub-todo to JSON members and decoding them gives the sub-todo
/// back, given that its instants and identifiers read back from their text.
pub proof fn lemma_subtodo_round_trip(t: SubTodoView)
    requires
        t.reads_back(),
    ensures
        subtodo_from_json(subtodo_json(t)) == Some(t),
{
    lemma_subtodo_json_lookup(t);
}

/// An optional field of a sub-todo has a JSON member exactly when it holds
/// a value.
pub proof fn lemma_subtodo_json_omits_absent(t: SubTodoView)
    ensures
        lookup(subtodo_json(t), "uuid"@) is None <==> t.uuid is None,
        lookup(subtodo_json(t), "parent_uuid"@) is None <==> t.parent_uuid is None,
        lookup(subtodo_json(t), "created_at"@) is None <==> t.created_at is None,
        lookup(subtodo_json(t), "updated_at"@) is None <==> t.updated_at is None,
        lookup(subtodo_json(t), "completed"@) is None <==> t.completed is None,
        lookup(subtodo_json(t), "completed_at"@) is None <==> t.completed_at is None,
{
    lemma_subtodo_json_lookup(t);
}

/// The body sent to create or update a todo or a sub-todo has no member for
/// the fields that the server assigns, whatever the item holds in them.
pub proof fn lemma_todo_write_bodies(t: TodoView, s: SubTodoView)
    ensures
        lookup(todo_json(t.without_server_fields()), "uuid"@) is None,
        lookup(todo_json(t.without_server_fields()), "created_at"@) is None,
        lookup(todo_json(t.without_server_fields()), "updated_at"@) is None,
        lookup(todo_json(t.without_server_fields()), "sub_todos"@) is None,
        lookup(subtodo_json(s.without_server_fields()), "uuid"@) is None,
        lookup(subtodo_json(s.without_server_fields()), "created_at"@) is None,
        lookup(subtodo_json(s.without_server_fields()), "updated_at"@) is None,
{
    lemma_todo_json_lookup(t.without_server_fields());
    lemma_subtodo_json_lookup(s.without_server_fields());
}

pub open spec fn is_default_todo(t: TodoView) -> bool {
    t == TodoView {
        uuid: None,
        created_at: None,
        updated_at: None,
        description: "New Todo Item via Rust client"@,
        notice: None,
        pin: None,
        completed: None,
        completed_at: None,
        repeat_type: None,
        remind_time: None,
        estimated_pomo_count: None,
        costed_pomo_count: None,
        sub_todos: None,
    }
}

pub open spec fn is_default_subtodo(t: SubTodoView) -> bool {
    t == SubTodoView {
        uuid: None,
        parent_uuid: None,
        created_at: None,
        updated_at: None,
        description: "New SubTodo Item via Rust client"@,
        completed: None,
        completed_at: None,
    }
}

impl Default for Todo {
    fn default() -> (r: Todo)
        ensures
            is_default_todo(r@),
    {
        Todo {
            uuid: None,
            created_at: None,
            updated_at: None,
            description: String::from_str("New Todo Item via Rust client"),
            notice: None,
            pin: None,
            completed: None,
            completed_at: None,
            repeat_type: None,
            remind_time: None,
            estimated_pomo_count: None,
            costed_pomo_count: None,
            sub_todos: None,
        }
    }
}

impl Default for SubTodo {
    fn default() -> (r: SubTodo)
        ensures
            is_default_subtodo(r@),
    {
        SubTodo {
            uuid: None,
            parent_uuid: None,
            created_at: None,
            updated_at: None,
            description: String::from_str("New SubTodo Item via Rust client"),
            completed: None,
            completed_at: None,
        }
    }
}

fn opt_repeat_value(o: Option<RepeatType>) -> (r: Option<JsonValue>)
    ensures
        match r {
            Some(v) => opt_repeat_json(o) == Some(v@),
            None => o is None,
        },
{
    match o {
        Some(t) => Some(JsonValue::Text(t.to_token())),
        None => None,
    }
}

impl Todo {
    /// A builder that starts from `Todo::default()`.
    pub fn builder() -> (r: TodoBuilder)
        ensures
            is_default_todo(r@),
    {
        TodoBuilder { todo: Todo::default() }
    }

    fn write_json(&self, server_fields: bool) -> (r: JsonObject)
        ensures
            r@ == todo_json(if server_fields { self@ } else { self@.without_server_fields() }),
    {
        let ghost v = if server_fields { self@ } else { self@.without_server_fields() };
        let mut o = JsonObject::new();
        if server_fields {
            o.push_opt("uuid", JsonValue::from_opt_uuid(self.uuid));
            o.push_opt("created_at", JsonValue::from_opt_time(self.created_at));
            o.push_opt("updated_at", JsonValue::from_opt_time(self.updated_at));
        }
        assert(o@ =~= entry("uuid"@, opt_uuid_json(v.uuid)) + entry("created_at"@, opt_time_json(v.created_at))
            + entry("updated_at"@, opt_time_json(v.updated_at)));
        o.push_opt("description", Some(JsonValue::Text(self.description.clone())));
        o.push_opt("notice", JsonValue::from_opt_text(&self.notice));
        o.push_opt("pin", JsonValue::from_opt_bool(self.pin));
        o.push_opt("completed", JsonValue::from_opt_bool(self.completed));
        o.push_opt("completed_at", JsonValue::from_opt_time(self.completed_at));
        o.push_opt("repeat_type", opt_repeat_value(self.repeat_type));
        o.push_opt("remind_time", JsonValue::from_opt_time(self.remind_time));
        o.push_opt("estimated_pomo_count", JsonValue::from_opt_count(self.estimated_pomo_count));
        o.push_opt("costed_pomo_count", JsonValue::from_opt_count(self.costed_pomo_count));
        o
    }

    /// The todo as JSON members; a field with no value has no member, and
    /// `sub_todos` never has one.
    pub fn to_json(&self) -> (r: JsonObject)
        ensures
            r@ == todo_json(self@),
    {
        self.write_json(true)
    }

    /// The body that creates or updates this todo: its JSON members without
    /// `uuid`, `created_at` and `updated_at`.
    pub fn write_body(&self) -> (r: JsonObject)
        ensures
            r@ == todo_json(self@.without_server_fields()),
    {
        self.write_json(false)
    }

    fn read_opt_repeat(obj: &JsonObject) -> (r: Option<Option<RepeatType>>)
        ensures
            r == read_opt_repeat(obj@, "repeat_type"@),
    {
        match obj.read_opt_text("repeat_type") {
            Some(Some(s)) => match RepeatType::from_token(s.as_str()) {
                Some(t) => Some(Some(t)),
                None => None,
            },
            Some(None) => Some(None),
            None => None,
        }
    }

    /// The todo that JSON members describe, or `None` where a required member
    /// is missing or a member has the wrong shape. Unknown members are ignored.
    pub fn from_json(obj: &JsonObject) -> (r: Option<Todo>)
        ensures
            match r {
                Some(t) => todo_from_json(obj@) == Some(t@),
                None => todo_from_json(obj@) is None,
            },
    {
        let uuid = obj.read_opt_uuid("uuid");
        let created_at = obj.read_opt_time("created_at");
        let updated_at = obj.read_opt_time("updated_at");
        let description = obj.read_text("description");
        let notice = obj.read_opt_text("notice");
        let pin = obj.read_opt_bool("pin");
        let completed = obj.read_opt_bool("completed");
        let completed_at = obj.read_opt_time("completed_at");
        let repeat_type = Todo::read_opt_repeat(obj);
        let remind_time = obj.read_opt_time("remind_time");
        let estimated_pomo_count = obj.read_opt_count("estimated_pomo_count");
        let costed_pomo_count = obj.read_opt_count("costed_pomo_count");
        let sub_todos = obj.read_opt_uuid_list("sub_todos");
        match (uuid, created_at, updated_at, description, notice, pin, completed) {
            (Some(uuid), Some(created_at), Some(updated_at), Some(description), Some(notice), Some(pin), Some(completed)) => {
                match (completed_at, repeat_type, remind_time, estimated_pomo_count, costed_pomo_count, sub_todos) {
                    (Some(completed_at), Some(repeat_type), Some(remind_time), Some(estimated_pomo_count), Some(costed_pomo_count), Some(sub_todos)) => {
                        Some(Todo {
                            uuid,
                            created_at,
                            updated_at,
                            description,
                            notice,
                            pin,
                            completed,
                            completed_at,
                            repeat_type,
                            remind_time,
                            estimated_pomo_count,
                            costed_pomo_count,
                            sub_todos,
                        })
                    },
                    _ => None,
                }
            },
            _ => None,
        }
    }
}

impl SubTodo {
    /// A builder that starts from `SubTodo::default()`.
    pub fn builder() -> (r: SubTodoBuilder)
        ensures
            is_default_subtodo(r@),
    {
        SubTodoBuilder { sub_todo: SubTodo::default() }
    }

    fn write_json(&self, server_fields: bool) -> (r: JsonObject)
        ensures
            r@ == subtodo_json(if server_fields { self@ } else { self@.without_server_fields() }),
    {
        let ghost v = if server_fields { self@ } else { self@.without_server_fields() };
        let mut o = JsonObject::new();
        if server_fields {
            o.push_opt("uuid", JsonValue::from_opt_uuid(self.uuid));
        }
        o.push_opt("parent_uuid", JsonValue::from_opt_uuid(self.parent_uuid));
        if server_fields {
            o.push_opt("created_at", JsonValue::from_opt_time(self.created_at));
            o.push_opt("updated_at", JsonValue::from_opt_time(self.updated_at));
        }
        assert(o@ =~= entry("uuid"@, opt_uuid_json(v.uuid)) + entry("parent_uuid"@, opt_uuid_json(v.parent_uuid))
            + entry("created_at"@, opt_time_json(v.created_at)) + entry("updated_at"@, opt_time_json(v.updated_at)));
        o.push_opt("description", Some(JsonValue::Text(self.description.clone())));
        o.push_opt("completed", JsonValue::from_opt_bool(self.completed));
        o.push_opt("completed_at", JsonValue::from_opt_time(self.completed_at));
        o
    }

    /// The sub-todo as JSON members; a field with no value has no member.
    pub fn to_json(&self) -> (r: JsonObject)
        ensures
            r@ == subtodo_json(self@),
    {
        self.write_json(true)
    }

    /// The body that creates or updates this sub-todo: its JSON members
    /// without `uuid`, `created_at` and `updated_at`.
    pub fn write_body(&self) -> (r: JsonObject)
        ensures
            r@ == subtodo_json(self@.without_server_fields()),
    {
        self.write_json(false)
    }

    /// The sub-todo that JSON members describe, or `None` where a required
    /// member is missing or a member has the wrong shape.
    pub fn from_json(obj: &JsonObject) -> (r: Option<SubTodo>)
        ensures
            match r {
                Some(t) => subtodo_from_json(obj@) == Some(t@),
                None => subtodo_from_json(obj@) is None,
            },
    {
        let uuid = obj.read_opt_uuid("uuid");
        let parent_uuid = obj.read_opt_uuid("parent_uuid");
        let created_at = obj.read_opt_time("created_at");
        let updated_at = obj.read_opt_time("updated_at");
        let description = obj.read_text("description");
        let completed = obj.read_opt_bool("completed");
        let completed_at = obj.read_opt_time("completed_at");
        match (uuid, parent_uuid, created_at, updated_at, description, completed, completed_at) {
            (Some(uuid), Some(parent_uuid), Some(created_at), Some(updated_at), Some(description), Some(completed), Some(completed_at)) => {
                Some(SubTodo { uuid, parent_uuid, created_at, updated_at, description, completed, completed_at })
            },
            _ => None,
        }
    }
}

/// Stages a `Todo`: setters for the fields a client may choose, then
/// `finish` hands the todo out.
#[derive(Debug)]
pub struct TodoBuilder {
    todo: Todo,
}

impl View for TodoBuilder {
    type V = TodoView;

    closed spec fn view(&self) -> TodoView {
        self.todo@
    }
}

impl TodoBuilder {
    pub fn description(self, desc: &str) -> (r: TodoBuilder)
        ensures
            r@ == (TodoView { description: desc@, ..self@ }),
    {
        let mut b = self;
        b.todo.description = String::from_str(desc);
        b
    }

    /// The staged todo.
    pub fn finish(self) -> (r: Todo)
        ensures
            r@ == self@,
    {
        self.todo
    }
}

/// Stages a `SubTodo`: setters for the fields a client may choose, then
/// `finish` hands the sub-todo out.
#[derive(Debug)]
pub struct SubTodoBuilder {
    sub_todo: SubTodo,
}

impl View for SubTodoBuilder {
    type V = SubTodoView;

    closed spec fn view(&self) -> SubTodoView {
        self.sub_todo@
    }
}

impl SubTodoBuilder {
    pub fn description(self, desc: &str) -> (r: SubTodoBuilder)
        ensures
            r@ == (SubTodoView { description: desc@, ..self@ }),
    {
        let mut b = self;
        b.sub_todo.description = String::from_str(desc);
        b
    }

    /// The staged sub-todo.
    pub fn finish(self) -> (r: SubTodo)
        ensures
            r@ == self@,
    {
        self.sub_todo
    }
}

/// Filters for listing todos. Each set field adds one `key=value` term to
/// the query string.
///
/// `TodoParameter::default()` asks for todos that are not completed
/// (`completed=false`), which narrows the list.
#[derive(Debug, Clone, Copy, PartialEq, Eq, Structural)]
pub struct TodoParameter {
    pub completed: Option<bool>,
    pub completed_later_than: Option<Timestamp>,
    pub completed_earlier_than: Option<Timestamp>,
}

impl Default for TodoParameter {
    fn default() -> (r: TodoParameter)
        ensures
            r == (TodoParameter { completed: Some(false), completed_later_than: None, completed_earlier_than: None }),
    {
        TodoParameter { completed: Some(false), completed_later_than: None, completed_earlier_than: None }
    }
}

impl TodoParameter {
    /// A parameter set with no filter.
    pub fn new() -> (r: TodoParameter)
        ensures
            r.is_unset(),
    {
        TodoParameter { completed: None, completed_later_than: None, completed_earlier_than: None }
    }

    pub open spec fn is_unset(self) -> bool {
        &&& self.completed is None
        &&& self.completed_later_than is None
        &&& self.completed_earlier_than is None
    }

    /// How many fields are set.
    pub open spec fn set_count(self) -> int {
        count_set(self.completed) + count_set(self.completed_later_than) + count_set(
            self.completed_earlier_than,
        )
    }

    /// One `key=value` term per set field, in declaration order.
    pub open spec fn query_terms(self) -> Seq<Seq<char>> {
        term("completed"@, opt_bool_text(self.completed))
            + term("completed_later_than"@, opt_display_text(self.completed_later_than))
            + term("completed_earlier_than"@, opt_display_text(self.completed_earlier_than))
    }

    pub fn with_completed(self, completed: bool) -> (r: TodoParameter)
        ensures
            r == (TodoParameter { completed: Some(completed), ..self }),
    {
        TodoParameter { completed: Some(completed), ..self }
    }

    pub fn with_completed_later(self, than: Timestamp) -> (r: TodoParameter)
        ensures
            r == (TodoParameter { completed_later_than: Some(than), ..self }),
    {
        TodoParameter { completed_later_than: Some(than), ..self }
    }

    pub fn with_completed_earlier(self, than: Timestamp) -> (r: TodoParameter)
        ensures
            r == (TodoParameter { completed_earlier_than: Some(than), ..self }),
    {
        TodoParameter { completed_earlier_than: Some(than), ..self }
    }

    /// The query string: the terms of the set fields joined by `&`.
    pub fn to_query(&self) -> (r: String)
        ensures
            r@ == join_terms(self.query_terms()),
    {
        let mut terms: Vec<String> = Vec::new();
        assert(texts_view(terms@) =~= Seq::<Seq<char>>::empty());
        let completed = match self.completed {
            Some(b) => Some(bool_string(b)),
            None => None,
        };
        let later = match self.completed_later_than {
            Some(t) => Some(t.to_display_text()),
            None => None,
        };
        let earlier = match self.completed_earlier_than {
            Some(t) => Some(t.to_display_text()),
            None => None,
        };
        push_term(&mut terms, "completed", completed);
        push_term(&mut terms, "completed_later_than", later);
        push_term(&mut terms, "completed_earlier_than", earlier);
        assert(texts_view(terms@) =~= self.query_terms());
        join_query(&terms)
    }
}

/// The query string of a parameter set is empty exactly when no field is
/// set; with one field set it is that field's single `key=value` term; in
/// general it holds one term per set field, in declaration order, joined by `&`.
pub proof fn lemma_todo_query(p: TodoParameter)
    ensures
        p.query_terms().len() == p.set_count(),
        join_terms(p.query_terms()).len() == 0 <==> p.is_unset(),
        p.set_count() == 1 ==> join_terms(p.query_terms()) == p.query_terms()[0],
{
    reveal_strlit("=");
    let t = p.query_terms();
    assert forall|i: int| 0 <= i < t.len() implies (#[trigger] t[i]).len() > 0 by {
        assert("="@.len() == 1);
    }
    lemma_join_terms(t);
}

} // verus!

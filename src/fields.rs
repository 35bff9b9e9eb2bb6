use crate::ident::{uuid_of_text, Uuid};
use crate::json::{lookup, Json, JsonObject, JsonValue};
use crate::time::{timestamp_of_text, Timestamp};
use vstd::prelude::*;

verus! {

// How typed values are written into JSON members.

pub open spec fn time_json(t: Timestamp) -> Json {
    Json::Text(t.json_text())
}

pub open spec fn uuid_json(u: Uuid) -> Json {
    Json::Text(u.text())
}

pub open spec fn opt_time_json(o: Option<Timestamp>) -> Option<Json> {
    match o {
        Some(t) => Some(time_json(t)),
        None => None,
    }
}

pub open spec fn opt_uuid_json(o: Option<Uuid>) -> Option<Json> {
    match o {
        Some(u) => Some(uuid_json(u)),
        None => None,
    }
}

pub open spec fn opt_text_json(o: Option<Seq<char>>) -> Option<Json> {
    match o {
        Some(s) => Some(Json::Text(s)),
        None => None,
    }
}

pub open spec fn opt_bool_json(o: Option<bool>) -> Option<Json> {
    match o {
        Some(b) => Some(Json::Bool(b)),
        None => None,
    }
}

pub open spec fn opt_count_json(o: Option<u64>) -> Option<Json> {
    match o {
        Some(n) => Some(Json::Number(n)),
        None => None,
    }
}

pub open spec fn opt_string_view(o: Option<String>) -> Option<Seq<char>> {
    match o {
        Some(s) => Some(s@),
        None => None,
    }
}

// How typed values are read from JSON members. The outer `None` is a
// member of the wrong shape; an absent or null optional member reads as
// `Some(None)`.

pub open spec fn read_text(f: Seq<(Seq<char>, Json)>, key: Seq<char>) -> Option<Seq<char>> {
    match lookup(f, key) {
        Some(Json::Text(s)) => Some(s),
        _ => None,
    }
}

pub open spec fn read_time(f: Seq<(Seq<char>, Json)>, key: Seq<char>) -> Option<Timestamp> {
    match lookup(f, key) {
        Some(Json::Text(s)) => timestamp_of_text(s),
        _ => None,
    }
}

pub open spec fn read_opt_text(f: Seq<(Seq<char>, Json)>, key: Seq<char>) -> Option<Option<Seq<char>>> {
    match lookup(f, key) {
        None => Some(None),
        Some(Json::Null) => Some(None),
        Some(Json::Text(s)) => Some(Some(s)),
        _ => None,
    }
}

pub open spec fn read_opt_bool(f: Seq<(Seq<char>, Json)>, key: Seq<char>) -> Option<Option<bool>> {
    match lookup(f, key) {
        None => Some(None),
        Some(Json::Null) => Some(None),
        Some(Json::Bool(b)) => Some(Some(b)),
        _ => None,
    }
}

pub open spec fn read_opt_count(f: Seq<(Seq<char>, Json)>, key: Seq<char>) -> Option<Option<u64>> {
    match lookup(f, key) {
        None => Some(None),
        Some(Json::Null) => Some(None),
        Some(Json::Number(n)) => Some(Some(n)),
        _ => None,
    }
}

pub open spec fn read_opt_time(f: Seq<(Seq<char>, Json)>, key: Seq<char>) -> Option<Option<Timestamp>> {
    match read_opt_text(f, key) {
        Some(Some(s)) => match timestamp_of_text(s) {
            Some(t) => Some(Some(t)),
            None => None,
        },
        Some(None) => Some(None),
        None => None,
    }
}

pub open spec fn read_opt_uuid(f: Seq<(Seq<char>, Json)>, key: Seq<char>) -> Option<Option<Uuid>> {
    match read_opt_text(f, key) {
        Some(Some(s)) => match uuid_of_text(s) {
            Some(u) => Some(Some(u)),
            None => None,
        },
        Some(None) => Some(None),
        None => None,
    }
}

/// Every text of the list reads as an identifier.
pub open spec fn all_uuids(l: Seq<Seq<char>>) -> bool {
    forall|i: int| 0 <= i < l.len() ==> (#[trigger] uuid_of_text(l[i])) is Some
}

pub open spec fn uuids_of_texts(l: Seq<Seq<char>>) -> Seq<Uuid> {
    l.map_values(|s: Seq<char>| uuid_of_text(s)->0)
}

pub open spec fn read_opt_uuid_list(f: Seq<(Seq<char>, Json)>, key: Seq<char>) -> Option<Option<Seq<Uuid>>> {
    match lookup(f, key) {
        None => Some(None),
        Some(Json::Null) => Some(None),
        Some(Json::TextList(l)) => if all_uuids(l) {
            Some(Some(uuids_of_texts(l)))
        } else {
            None
        },
        _ => None,
    }
}

impl JsonValue {
    pub fn from_time(t: Timestamp) -> (r: JsonValue)
        ensures
            r@ == time_json(t),
    {
        JsonValue::Text(t.to_json_text())
    }

    pub fn from_uuid(u: Uuid) -> (r: JsonValue)
        ensures
            r@ == uuid_json(u),
    {
        JsonValue::Text(u.to_text())
    }

    pub fn from_opt_time(o: Option<Timestamp>) -> (r: Option<JsonValue>)
        ensures
            match r {
                Some(v) => opt_time_json(o) == Some(v@),
                None => o is None,
            },
    {
        match o {
            Some(t) => Some(JsonValue::from_time(t)),
            None => None,
        }
    }

    pub fn from_opt_uuid(o: Option<Uuid>) -> (r: Option<JsonValue>)
        ensures
            match r {
                Some(v) => opt_uuid_json(o) == Some(v@),
                None => o is None,
            },
    {
        match o {
            Some(u) => Some(JsonValue::from_uuid(u)),
            None => None,
        }
    }

    pub fn from_opt_text(o: &Option<String>) -> (r: Option<JsonValue>)
        ensures
            match r {
                Some(v) => opt_text_json(opt_string_view(*o)) == Some(v@),
                None => o is None,
            },
    {
        match o {
            Some(s) => Some(JsonValue::Text(s.clone())),
            None => None,
        }
    }

    pub fn from_opt_bool(o: Option<bool>) -> (r: Option<JsonValue>)
        ensures
            match r {
                Some(v) => opt_bool_json(o) == Some(v@),
                None => o is None,
            },
    {
        match o {
            Some(b) => Some(JsonValue::Bool(b)),
            None => None,
        }
    }

    pub fn from_opt_count(o: Option<u64>) -> (r: Option<JsonValue>)
        ensures
            match r {
                Some(v) => opt_count_json(o) == Some(v@),
                None => o is None,
            },
    {
        match o {
            Some(n) => Some(JsonValue::Number(n)),
            None => None,
        }
    }
}

impl JsonObject {
    pub fn read_text(&self, key: &str) -> (r: Option<String>)
        ensures
            opt_string_view(r) == read_text(self@, key@),
    {
        match self.get(key) {
            Some(JsonValue::Text(s)) => Some(s.clone()),
            _ => None,
        }
    }

    pub fn read_time(&self, key: &str) -> (r: Option<Timestamp>)
        ensures
            r == read_time(self@, key@),
    {
        match self.get(key) {
            Some(JsonValue::Text(s)) => Timestamp::from_json_text(s.as_str()),
            _ => None,
        }
    }

    pub fn read_opt_text(&self, key: &str) -> (r: Option<Option<String>>)
        ensures
            match r {
                Some(o) => read_opt_text(self@, key@) == Some(opt_string_view(o)),
                None => read_opt_text(self@, key@) is None,
            },
    {
        match self.get(key) {
            None => Some(None),
            Some(JsonValue::Null) => Some(None),
            Some(JsonValue::Text(s)) => Some(Some(s.clone())),
            _ => None,
        }
    }

    pub fn read_opt_bool(&self, key: &str) -> (r: Option<Option<bool>>)
        ensures
            r == read_opt_bool(self@, key@),
    {
        match self.get(key) {
            None => Some(None),
            Some(JsonValue::Null) => Some(None),
            Some(JsonValue::Bool(b)) => Some(Some(*b)),
            _ => None,
        }
    }

    pub fn read_opt_count(&self, key: &str) -> (r: Option<Option<u64>>)
        ensures
            r == read_opt_count(self@, key@),
    {
        match self.get(key) {
            None => Some(None),
            Some(JsonValue::Null) => Some(None),
            Some(JsonValue::Number(n)) => Some(Some(*n)),
            _ => None,
        }
    }

    pub fn read_opt_time(&self, key: &str) -> (r: Option<Option<Timestamp>>)
        ensures
            r == read_opt_time(self@, key@),
    {
        match self.get(key) {
            None => Some(None),
            Some(JsonValue::Null) => Some(None),
            Some(JsonValue::Text(s)) => match Timestamp::from_json_text(s.as_str()) {
                Some(t) => Some(Some(t)),
                None => None,
            },
            _ => None,
        }
    }

    pub fn read_opt_uuid(&self, key: &str) -> (r: Option<Option<Uuid>>)
        ensures
            r == read_opt_uuid(self@, key@),
    {
        match self.get(key) {
            None => Some(None),
            Some(JsonValue::Null) => Some(None),
            Some(JsonValue::Text(s)) => match Uuid::parse(s.as_str()) {
                Some(u) => Some(Some(u)),
                None => None,
            },
            _ => None,
        }
    }

    pub fn read_opt_uuid_list(&self, key: &str) -> (r: Option<Option<Vec<Uuid>>>)
        ensures
            match r {
                Some(Some(v)) => read_opt_uuid_list(self@, key@) == Some(Some(v@)),
                Some(None) => read_opt_uuid_list(self@, key@) == Some(None::<Seq<Uuid>>),
                None => read_opt_uuid_list(self@, key@) is None,
            },
    {
        match self.get(key) {
            None => Some(None),
            Some(JsonValue::Null) => Some(None),
            Some(JsonValue::TextList(l)) => {
                let ghost texts = crate::json::texts_view(l@);
                let mut ids: Vec<Uuid> = Vec::new();
                let mut i: usize = 0;
                while i < l.len()
                    invariant
                        i <= l@.len(),
                        texts == crate::json::texts_view(l@),
                        lookup(self@, key@) == Some(Json::TextList(texts)),
                        ids@.len() == i,
                        forall|j: int| 0 <= j < i ==> (#[trigger] uuid_of_text(texts[j])) is Some,
                        ids@ =~= uuids_of_texts(texts.take(i as int)),
                    decreases l@.len() - i,
                {
                    match Uuid::parse(l[i].as_str()) {
                        Some(u) => {
                            ids.push(u);
                        },
                        None => {
                            assert(uuid_of_text(texts[i as int]) is None);
                            assert(!all_uuids(texts));
                            return None;
                        },
                    }
                    i = i + 1;
                    assert(ids@ =~= uuids_of_texts(texts.take(i as int)));
                }
                assert(texts.take(i as int) =~= texts);
                Some(Some(ids))
            },
            _ => None,
        }
    }
}

} // verus!

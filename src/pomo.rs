use crate::fields::{
    opt_bool_json, opt_count_json, opt_time_json, opt_uuid_json, read_opt_bool, read_opt_count,
    read_opt_time, read_opt_uuid, read_text, read_time, time_json,
};
use crate::ident::Uuid;
use crate::json::{
    entry, lemma_lookup_concat, lemma_lookup_entry, lookup, texts_view, Json, JsonObject, JsonValue,
};
use crate::query::{bool_string, bool_text, join_query, join_terms, lemma_join_terms, push_term, term};
use crate::time::Timestamp;
use vstd::prelude::*;
use vstd::string::*;

verus! {

/// One work interval.
///
/// To create one the server needs `description`, `started_at` and
/// `ended_at`; it assigns `uuid`, `created_at` and `updated_at` itself and
/// refuses them from the client.
#[derive(Debug, Clone, PartialEq)]
pub struct Pomo {
    pub uuid: Option<Uuid>,
    pub created_at: Option<Timestamp>,
    pub updated_at: Option<Timestamp>,
    pub description: String,
    pub started_at: Timestamp,
    pub ended_at: Timestamp,
    pub local_started_at: Option<Timestamp>,
    pub local_ended_at: Option<Timestamp>,
    /// Duration in seconds.
    pub length: Option<u64>,
    pub abandoned: Option<bool>,
    pub manual: Option<bool>,
}

pub struct PomoView {
    pub uuid: Option<Uuid>,
    pub created_at: Option<Timestamp>,
    pub updated_at: Option<Timestamp>,
    pub description: Seq<char>,
    pub started_at: Timestamp,
    pub ended_at: Timestamp,
    pub local_started_at: Option<Timestamp>,
    pub local_ended_at: Option<Timestamp>,
    pub length: Option<u64>,
    pub abandoned: Option<bool>,
    pub manual: Option<bool>,
}

impl View for Pomo {
    type V = PomoView;

    open spec fn view(&self) -> PomoView {
        PomoView {
            uuid: self.uuid,
            created_at: self.created_at,
            updated_at: self.updated_at,
            description: self.description@,
            started_at: self.started_at,
            ended_at: self.ended_at,
            local_started_at: self.local_started_at,
            local_ended_at: self.local_ended_at,
            length: self.length,
            abandoned: self.abandoned,
            manual: self.manual,
        }
    }
}

pub open spec fn opt_time_reads_back(o: Option<Timestamp>) -> bool {
    o matches Some(t) ==> t.reads_back()
}

pub open spec fn opt_uuid_reads_back(o: Option<Uuid>) -> bool {
    o matches Some(u) ==> u.reads_back()
}

impl PomoView {
    /// The same pomo without the fields that the server assigns.
    pub open spec fn without_server_fields(self) -> PomoView {
        PomoView { uuid: None, created_at: None, updated_at: None, ..self }
    }

    /// Every instant and identifier in the pomo reads back from its text.
    pub open spec fn reads_back(self) -> bool {
        &&& opt_uuid_reads_back(self.uuid)
        &&& opt_time_reads_back(self.created_at)
        &&& opt_time_reads_back(self.updated_at)
        &&& self.started_at.reads_back()
        &&& self.ended_at.reads_back()
        &&& opt_time_reads_back(self.local_started_at)
        &&& opt_time_reads_back(self.local_ended_at)
    }
}

/// The JSON members of a pomo: one per field that holds a value, in
/// declaration order.
pub open spec fn pomo_json(p: PomoView) -> Seq<(Seq<char>, Json)> {
    entry("uuid"@, opt_uuid_json(p.uuid))
        + entry("created_at"@, opt_time_json(p.created_at))
        + entry("updated_at"@, opt_time_json(p.updated_at))
        + entry("description"@, Some(Json::Text(p.description)))
        + entry("started_at"@, Some(time_json(p.started_at)))
        + entry("ended_at"@, Some(time_json(p.ended_at)))
        + entry("local_started_at"@, opt_time_json(p.local_started_at))
        + entry("local_ended_at"@, opt_time_json(p.local_ended_at))
        + entry("length"@, opt_count_json(p.length))
        + entry("abandoned"@, opt_bool_json(p.abandoned))
        + entry("manual"@, opt_bool_json(p.manual))
}

/// The pomo that JSON members describe, if they describe one.
pub open spec fn pomo_from_json(f: Seq<(Seq<char>, Json)>) -> Option<PomoView> {
    let uuid = read_opt_uuid(f, "uuid"@);
    let created_at = read_opt_time(f, "created_at"@);
    let updated_at = read_opt_time(f, "updated_at"@);
    let description = read_text(f, "description"@);
    let started_at = read_time(f, "started_at"@);
    let ended_at = read_time(f, "ended_at"@);
    let local_started_at = read_opt_time(f, "local_started_at"@);
    let local_ended_at = read_opt_time(f, "local_ended_at"@);
    let length = read_opt_count(f, "length"@);
    let abandoned = read_opt_bool(f, "abandoned"@);
    let manual = read_opt_bool(f, "manual"@);
    if uuid is Some && created_at is Some && updated_at is Some && description is Some
        && started_at is Some && ended_at is Some && local_started_at is Some
        && local_ended_at is Some && length is Some && abandoned is Some && manual is Some {
        Some(
            PomoView {
                uuid: uuid->0,
                created_at: created_at->0,
                updated_at: updated_at->0,
                description: description->0,
                started_at: started_at->0,
                ended_at: ended_at->0,
                local_started_at: local_started_at->0,
                local_ended_at: local_ended_at->0,
                length: length->0,
                abandoned: abandoned->0,
                manual: manual->0,
            },
        )
    } else {
        None
    }
}

/// Looking up each key of the members finds what its field holds.
proof fn lemma_pomo_json_lookup(p: PomoView)
    ensures
        lookup(pomo_json(p), "uuid"@) == opt_uuid_json(p.uuid),
        lookup(pomo_json(p), "created_at"@) == opt_time_json(p.created_at),
        lookup(pomo_json(p), "updated_at"@) == opt_time_json(p.updated_at),
        lookup(pomo_json(p), "description"@) == Some(Json::Text(p.description)),
        lookup(pomo_json(p), "started_at"@) == Some(time_json(p.started_at)),
        lookup(pomo_json(p), "ended_at"@) == Some(time_json(p.ended_at)),
        lookup(pomo_json(p), "local_started_at"@) == opt_time_json(p.local_started_at),
        lookup(pomo_json(p), "local_ended_at"@) == opt_time_json(p.local_ended_at),
        lookup(pomo_json(p), "length"@) == opt_count_json(p.length),
        lookup(pomo_json(p), "abandoned"@) == opt_bool_json(p.abandoned),
        lookup(pomo_json(p), "manual"@) == opt_bool_json(p.manual),
{
    reveal_strlit("uuid");
    assert("uuid"@.len() == 4 && "uuid"@[0] == 'u');
    reveal_strlit("created_at");
    assert("created_at"@.len() == 10 && "created_at"@[0] == 'c');
    reveal_strlit("updated_at");
    assert("updated_at"@.len() == 10 && "updated_at"@[0] == 'u');
    reveal_strlit("description");
    assert("description"@.len() == 11 && "description"@[0] == 'd');
    reveal_strlit("started_at");
    assert("started_at"@.len() == 10 && "started_at"@[0] == 's');
    reveal_strlit("ended_at");
    assert("ended_at"@.len() == 8 && "ended_at"@[0] == 'e');
    reveal_strlit("local_started_at");
    assert("local_started_at"@.len() == 16 && "local_started_at"@[0] == 'l');
    reveal_strlit("local_ended_at");
    assert("local_ended_at"@.len() == 14 && "local_ended_at"@[0] == 'l');
    reveal_strlit("length");
    assert("length"@.len() == 6 && "length"@[0] == 'l');
    reveal_strlit("abandoned");
    assert("abandoned"@.len() == 9 && "abandoned"@[0] == 'a');
    reveal_strlit("manual");
    assert("manual"@.len() == 6 && "manual"@[0] == 'm');
    let e0 = entry("uuid"@, opt_uuid_json(p.uuid));
    let e1 = entry("created_at"@, opt_time_json(p.created_at));
    let e2 = entry("updated_at"@, opt_time_json(p.updated_at));
    let e3 = entry("description"@, Some(Json::Text(p.description)));
    let e4 = entry("started_at"@, Some(time_json(p.started_at)));
    let e5 = entry("ended_at"@, Some(time_json(p.ended_at)));
    let e6 = entry("local_started_at"@, opt_time_json(p.local_started_at));
    let e7 = entry("local_ended_at"@, opt_time_json(p.local_ended_at));
    let e8 = entry("length"@, opt_count_json(p.length));
    let e9 = entry("abandoned"@, opt_bool_json(p.abandoned));
    let e10 = entry("manual"@, opt_bool_json(p.manual));
    assert(pomo_json(p) == e0 + e1 + e2 + e3 + e4 + e5 + e6 + e7 + e8 + e9 + e10);
    assert(lookup(pomo_json(p), "uuid"@) == opt_uuid_json(p.uuid)) by {
        let k = "uuid"@;
        lemma_lookup_entry("uuid"@, opt_uuid_json(p.uuid), k);
        lemma_lookup_entry("created_at"@, opt_time_json(p.created_at), k);
        lemma_lookup_entry("updated_at"@, opt_time_json(p.updated_at), k);
        lemma_lookup_entry("description"@, Some(Json::Text(p.description)), k);
        lemma_lookup_entry("started_at"@, Some(time_json(p.started_at)), k);
        lemma_lookup_entry("ended_at"@, Some(time_json(p.ended_at)), k);
        lemma_lookup_entry("local_started_at"@, opt_time_json(p.local_started_at), k);
        lemma_lookup_entry("local_ended_at"@, opt_time_json(p.local_ended_at), k);
        lemma_lookup_entry("length"@, opt_count_json(p.length), k);
        lemma_lookup_entry("abandoned"@, opt_bool_json(p.abandoned), k);
        lemma_lookup_entry("manual"@, opt_bool_json(p.manual), k);
        lemma_lookup_concat(e0 + e1 + e2 + e3 + e4 + e5 + e6 + e7 + e8 + e9, e10, k);
        lemma_lookup_concat(e0 + e1 + e2 + e3 + e4 + e5 + e6 + e7 + e8, e9, k);
        lemma_lookup_concat(e0 + e1 + e2 + e3 + e4 + e5 + e6 + e7, e8, k);
        lemma_lookup_concat(e0 + e1 + e2 + e3 + e4 + e5 + e6, e7, k);
        lemma_lookup_concat(e0 + e1 + e2 + e3 + e4 + e5, e6, k);
        lemma_lookup_concat(e0 + e1 + e2 + e3 + e4, e5, k);
        lemma_lookup_concat(e0 + e1 + e2 + e3, e4, k);
        lemma_lookup_concat(e0 + e1 + e2, e3, k);
        lemma_lookup_concat(e0 + e1, e2, k);
        lemma_lookup_concat(e0, e1, k);
    }
    assert(lookup(pomo_json(p), "created_at"@) == opt_time_json(p.created_at)) by {
        let k = "created_at"@;
        lemma_lookup_entry("uuid"@, opt_uuid_json(p.uuid), k);
        lemma_lookup_entry("created_at"@, opt_time_json(p.created_at), k);
        lemma_lookup_entry("updated_at"@, opt_time_json(p.updated_at), k);
        lemma_lookup_entry("description"@, Some(Json::Text(p.description)), k);
        lemma_lookup_entry("started_at"@, Some(time_json(p.started_at)), k);
        lemma_lookup_entry("ended_at"@, Some(time_json(p.ended_at)), k);
        lemma_lookup_entry("local_started_at"@, opt_time_json(p.local_started_at), k);
        lemma_lookup_entry("local_ended_at"@, opt_time_json(p.local_ended_at), k);
        lemma_lookup_entry("length"@, opt_count_json(p.length), k);
        lemma_lookup_entry("abandoned"@, opt_bool_json(p.abandoned), k);
        lemma_lookup_entry("manual"@, opt_bool_json(p.manual), k);
        lemma_lookup_concat(e0 + e1 + e2 + e3 + e4 + e5 + e6 + e7 + e8 + e9, e10, k);
        lemma_lookup_concat(e0 + e1 + e2 + e3 + e4 + e5 + e6 + e7 + e8, e9, k);
        lemma_lookup_concat(e0 + e1 + e2 + e3 + e4 + e5 + e6 + e7, e8, k);
        lemma_lookup_concat(e0 + e1 + e2 + e3 + e4 + e5 + e6, e7, k);
        lemma_lookup_concat(e0 + e1 + e2 + e3 + e4 + e5, e6, k);
        lemma_lookup_concat(e0 + e1 + e2 + e3 + e4, e5, k);
        lemma_lookup_concat(e0 + e1 + e2 + e3, e4, k);
        lemma_lookup_concat(e0 + e1 + e2, e3, k);
        lemma_lookup_concat(e0 + e1, e2, k);
        lemma_lookup_concat(e0, e1, k);
    }
    assert(lookup(pomo_json(p), "updated_at"@) == opt_time_json(p.updated_at)) by {
        let k = "updated_at"@;
        lemma_lookup_entry("uuid"@, opt_uuid_json(p.uuid), k);
        lemma_lookup_entry("created_at"@, opt_time_json(p.created_at), k);
        lemma_lookup_entry("updated_at"@, opt_time_json(p.updated_at), k);
        lemma_lookup_entry("description"@, Some(Json::Text(p.description)), k);
        lemma_lookup_entry("started_at"@, Some(time_json(p.started_at)), k);
        lemma_lookup_entry("ended_at"@, Some(time_json(p.ended_at)), k);
        lemma_lookup_entry("local_started_at"@, opt_time_json(p.local_started_at), k);
        lemma_lookup_entry("local_ended_at"@, opt_time_json(p.local_ended_at), k);
        lemma_lookup_entry("length"@, opt_count_json(p.length), k);
        lemma_lookup_entry("abandoned"@, opt_bool_json(p.abandoned), k);
        lemma_lookup_entry("manual"@, opt_bool_json(p.manual), k);
        lemma_lookup_concat(e0 + e1 + e2 + e3 + e4 + e5 + e6 + e7 + e8 + e9, e10, k);
        lemma_lookup_concat(e0 + e1 + e2 + e3 + e4 + e5 + e6 + e7 + e8, e9, k);
        lemma_lookup_concat(e0 + e1 + e2 + e3 + e4 + e5 + e6 + e7, e8, k);
        lemma_lookup_concat(e0 + e1 + e2 + e3 + e4 + e5 + e6, e7, k);
        lemma_lookup_concat(e0 + e1 + e2 + e3 + e4 + e5, e6, k);
        lemma_lookup_concat(e0 + e1 + e2 + e3 + e4, e5, k);
        lemma_lookup_concat(e0 + e1 + e2 + e3, e4, k);
        lemma_lookup_concat(e0 + e1 + e2, e3, k);
        lemma_lookup_concat(e0 + e1, e2, k);
        lemma_lookup_concat(e0, e1, k);
    }
    assert(lookup(pomo_json(p), "description"@) == Some(Json::Text(p.description))) by {
        let k = "description"@;
        lemma_lookup_entry("uuid"@, opt_uuid_json(p.uuid), k);
        lemma_lookup_entry("created_at"@, opt_time_json(p.created_at), k);
        lemma_lookup_entry("updated_at"@, opt_time_json(p.updated_at), k);
        lemma_lookup_entry("description"@, Some(Json::Text(p.description)), k);
        lemma_lookup_entry("started_at"@, Some(time_json(p.started_at)), k);
        lemma_lookup_entry("ended_at"@, Some(time_json(p.ended_at)), k);
        lemma_lookup_entry("local_started_at"@, opt_time_json(p.local_started_at), k);
        lemma_lookup_entry("local_ended_at"@, opt_time_json(p.local_ended_at), k);
        lemma_lookup_entry("length"@, opt_count_json(p.length), k);
        lemma_lookup_entry("abandoned"@, opt_bool_json(p.abandoned), k);
        lemma_lookup_entry("manual"@, opt_bool_json(p.manual), k);
        lemma_lookup_concat(e0 + e1 + e2 + e3 + e4 + e5 + e6 + e7 + e8 + e9, e10, k);
        lemma_lookup_concat(e0 + e1 + e2 + e3 + e4 + e5 + e6 + e7 + e8, e9, k);
        lemma_lookup_concat(e0 + e1 + e2 + e3 + e4 + e5 + e6 + e7, e8, k);
        lemma_lookup_concat(e0 + e1 + e2 + e3 + e4 + e5 + e6, e7, k);
        lemma_lookup_concat(e0 + e1 + e2 + e3 + e4 + e5, e6, k);
        lemma_lookup_concat(e0 + e1 + e2 + e3 + e4, e5, k);
        lemma_lookup_concat(e0 + e1 + e2 + e3, e4, k);
        lemma_lookup_concat(e0 + e1 + e2, e3, k);
        lemma_lookup_concat(e0 + e1, e2, k);
        lemma_lookup_concat(e0, e1, k);
    }
    assert(lookup(pomo_json(p), "started_at"@) == Some(time_json(p.started_at))) by {
        let k = "started_at"@;
        lemma_lookup_entry("uuid"@, opt_uuid_json(p.uuid), k);
        lemma_lookup_entry("created_at"@, opt_time_json(p.created_at), k);
        lemma_lookup_entry("updated_at"@, opt_time_json(p.updated_at), k);
        lemma_lookup_entry("description"@, Some(Json::Text(p.description)), k);
        lemma_lookup_entry("started_at"@, Some(time_json(p.started_at)), k);
        lemma_lookup_entry("ended_at"@, Some(time_json(p.ended_at)), k);
        lemma_lookup_entry("local_started_at"@, opt_time_json(p.local_started_at), k);
        lemma_lookup_entry("local_ended_at"@, opt_time_json(p.local_ended_at), k);
        lemma_lookup_entry("length"@, opt_count_json(p.length), k);
        lemma_lookup_entry("abandoned"@, opt_bool_json(p.abandoned), k);
        lemma_lookup_entry("manual"@, opt_bool_json(p.manual), k);
        lemma_lookup_concat(e0 + e1 + e2 + e3 + e4 + e5 + e6 + e7 + e8 + e9, e10, k);
        lemma_lookup_concat(e0 + e1 + e2 + e3 + e4 + e5 + e6 + e7 + e8, e9, k);
        lemma_lookup_concat(e0 + e1 + e2 + e3 + e4 + e5 + e6 + e7, e8, k);
        lemma_lookup_concat(e0 + e1 + e2 + e3 + e4 + e5 + e6, e7, k);
        lemma_lookup_concat(e0 + e1 + e2 + e3 + e4 + e5, e6, k);
        lemma_lookup_concat(e0 + e1 + e2 + e3 + e4, e5, k);
        lemma_lookup_concat(e0 + e1 + e2 + e3, e4, k);
        lemma_lookup_concat(e0 + e1 + e2, e3, k);
        lemma_lookup_concat(e0 + e1, e2, k);
        lemma_lookup_concat(e0, e1, k);
    }
    assert(lookup(pomo_json(p), "ended_at"@) == Some(time_json(p.ended_at))) by {
        let k = "ended_at"@;
        lemma_lookup_entry("uuid"@, opt_uuid_json(p.uuid), k);
        lemma_lookup_entry("created_at"@, opt_time_json(p.created_at), k);
        lemma_lookup_entry("updated_at"@, opt_time_json(p.updated_at), k);
        lemma_lookup_entry("description"@, Some(Json::Text(p.description)), k);
        lemma_lookup_entry("started_at"@, Some(time_json(p.started_at)), k);
        lemma_lookup_entry("ended_at"@, Some(time_json(p.ended_at)), k);
        lemma_lookup_entry("local_started_at"@, opt_time_json(p.local_started_at), k);
        lemma_lookup_entry("local_ended_at"@, opt_time_json(p.local_ended_at), k);
        lemma_lookup_entry("length"@, opt_count_json(p.length), k);
        lemma_lookup_entry("abandoned"@, opt_bool_json(p.abandoned), k);
        lemma_lookup_entry("manual"@, opt_bool_json(p.manual), k);
        lemma_lookup_concat(e0 + e1 + e2 + e3 + e4 + e5 + e6 + e7 + e8 + e9, e10, k);
        lemma_lookup_concat(e0 + e1 + e2 + e3 + e4 + e5 + e6 + e7 + e8, e9, k);
        lemma_lookup_concat(e0 + e1 + e2 + e3 + e4 + e5 + e6 + e7, e8, k);
        lemma_lookup_concat(e0 + e1 + e2 + e3 + e4 + e5 + e6, e7, k);
        lemma_lookup_concat(e0 + e1 + e2 + e3 + e4 + e5, e6, k);
        lemma_lookup_concat(e0 + e1 + e2 + e3 + e4, e5, k);
        lemma_lookup_concat(e0 + e1 + e2 + e3, e4, k);
        lemma_lookup_concat(e0 + e1 + e2, e3, k);
        lemma_lookup_concat(e0 + e1, e2, k);
        lemma_lookup_concat(e0, e1, k);
    }
    assert(lookup(pomo_json(p), "local_started_at"@) == opt_time_json(p.local_started_at)) by {
        let k = "local_started_at"@;
        lemma_lookup_entry("uuid"@, opt_uuid_json(p.uuid), k);
        lemma_lookup_entry("created_at"@, opt_time_json(p.created_at), k);
        lemma_lookup_entry("updated_at"@, opt_time_json(p.updated_at), k);
        lemma_lookup_entry("description"@, Some(Json::Text(p.description)), k);
        lemma_lookup_entry("started_at"@, Some(time_json(p.started_at)), k);
        lemma_lookup_entry("ended_at"@, Some(time_json(p.ended_at)), k);
        lemma_lookup_entry("local_started_at"@, opt_time_json(p.local_started_at), k);
        lemma_lookup_entry("local_ended_at"@, opt_time_json(p.local_ended_at), k);
        lemma_lookup_entry("length"@, opt_count_json(p.length), k);
        lemma_lookup_entry("abandoned"@, opt_bool_json(p.abandoned), k);
        lemma_lookup_entry("manual"@, opt_bool_json(p.manual), k);
        lemma_lookup_concat(e0 + e1 + e2 + e3 + e4 + e5 + e6 + e7 + e8 + e9, e10, k);
        lemma_lookup_concat(e0 + e1 + e2 + e3 + e4 + e5 + e6 + e7 + e8, e9, k);
        lemma_lookup_concat(e0 + e1 + e2 + e3 + e4 + e5 + e6 + e7, e8, k);
        lemma_lookup_concat(e0 + e1 + e2 + e3 + e4 + e5 + e6, e7, k);
        lemma_lookup_concat(e0 + e1 + e2 + e3 + e4 + e5, e6, k);
        lemma_lookup_concat(e0 + e1 + e2 + e3 + e4, e5, k);
        lemma_lookup_concat(e0 + e1 + e2 + e3, e4, k);
        lemma_lookup_concat(e0 + e1 + e2, e3, k);
        lemma_lookup_concat(e0 + e1, e2, k);
        lemma_lookup_concat(e0, e1, k);
    }
    assert(lookup(pomo_json(p), "local_ended_at"@) == opt_time_json(p.local_ended_at)) by {
        let k = "local_ended_at"@;
        lemma_lookup_entry("uuid"@, opt_uuid_json(p.uuid), k);
        lemma_lookup_entry("created_at"@, opt_time_json(p.created_at), k);
        lemma_lookup_entry("updated_at"@, opt_time_json(p.updated_at), k);
        lemma_lookup_entry("description"@, Some(Json::Text(p.description)), k);
        lemma_lookup_entry("started_at"@, Some(time_json(p.started_at)), k);
        lemma_lookup_entry("ended_at"@, Some(time_json(p.ended_at)), k);
        lemma_lookup_entry("local_started_at"@, opt_time_json(p.local_started_at), k);
        lemma_lookup_entry("local_ended_at"@, opt_time_json(p.local_ended_at), k);
        lemma_lookup_entry("length"@, opt_count_json(p.length), k);
        lemma_lookup_entry("abandoned"@, opt_bool_json(p.abandoned), k);
        lemma_lookup_entry("manual"@, opt_bool_json(p.manual), k);
        lemma_lookup_concat(e0 + e1 + e2 + e3 + e4 + e5 + e6 + e7 + e8 + e9, e10, k);
        lemma_lookup_concat(e0 + e1 + e2 + e3 + e4 + e5 + e6 + e7 + e8, e9, k);
        lemma_lookup_concat(e0 + e1 + e2 + e3 + e4 + e5 + e6 + e7, e8, k);
        lemma_lookup_concat(e0 + e1 + e2 + e3 + e4 + e5 + e6, e7, k);
        lemma_lookup_concat(e0 + e1 + e2 + e3 + e4 + e5, e6, k);
        lemma_lookup_concat(e0 + e1 + e2 + e3 + e4, e5, k);
        lemma_lookup_concat(e0 + e1 + e2 + e3, e4, k);
        lemma_lookup_concat(e0 + e1 + e2, e3, k);
        lemma_lookup_concat(e0 + e1, e2, k);
        lemma_lookup_concat(e0, e1, k);
    }
    assert(lookup(pomo_json(p), "length"@) == opt_count_json(p.length)) by {
        let k = "length"@;
        lemma_lookup_entry("uuid"@, opt_uuid_json(p.uuid), k);
        lemma_lookup_entry("created_at"@, opt_time_json(p.created_at), k);
        lemma_lookup_entry("updated_at"@, opt_time_json(p.updated_at), k);
        lemma_lookup_entry("description"@, Some(Json::Text(p.description)), k);
        lemma_lookup_entry("started_at"@, Some(time_json(p.started_at)), k);
        lemma_lookup_entry("ended_at"@, Some(time_json(p.ended_at)), k);
        lemma_lookup_entry("local_started_at"@, opt_time_json(p.local_started_at), k);
        lemma_lookup_entry("local_ended_at"@, opt_time_json(p.local_ended_at), k);
        lemma_lookup_entry("length"@, opt_count_json(p.length), k);
        lemma_lookup_entry("abandoned"@, opt_bool_json(p.abandoned), k);
        lemma_lookup_entry("manual"@, opt_bool_json(p.manual), k);
        lemma_lookup_concat(e0 + e1 + e2 + e3 + e4 + e5 + e6 + e7 + e8 + e9, e10, k);
        lemma_lookup_concat(e0 + e1 + e2 + e3 + e4 + e5 + e6 + e7 + e8, e9, k);
        lemma_lookup_concat(e0 + e1 + e2 + e3 + e4 + e5 + e6 + e7, e8, k);
        lemma_lookup_concat(e0 + e1 + e2 + e3 + e4 + e5 + e6, e7, k);
        lemma_lookup_concat(e0 + e1 + e2 + e3 + e4 + e5, e6, k);
        lemma_lookup_concat(e0 + e1 + e2 + e3 + e4, e5, k);
        lemma_lookup_concat(e0 + e1 + e2 + e3, e4, k);
        lemma_lookup_concat(e0 + e1 + e2, e3, k);
        lemma_lookup_concat(e0 + e1, e2, k);
        lemma_lookup_concat(e0, e1, k);
    }
    assert(lookup(pomo_json(p), "abandoned"@) == opt_bool_json(p.abandoned)) by {
        let k = "abandoned"@;
        lemma_lookup_entry("uuid"@, opt_uuid_json(p.uuid), k);
        lemma_lookup_entry("created_at"@, opt_time_json(p.created_at), k);
        lemma_lookup_entry("updated_at"@, opt_time_json(p.updated_at), k);
        lemma_lookup_entry("description"@, Some(Json::Text(p.description)), k);
        lemma_lookup_entry("started_at"@, Some(time_json(p.started_at)), k);
        lemma_lookup_entry("ended_at"@, Some(time_json(p.ended_at)), k);
        lemma_lookup_entry("local_started_at"@, opt_time_json(p.local_started_at), k);
        lemma_lookup_entry("local_ended_at"@, opt_time_json(p.local_ended_at), k);
        lemma_lookup_entry("length"@, opt_count_json(p.length), k);
        lemma_lookup_entry("abandoned"@, opt_bool_json(p.abandoned), k);
        lemma_lookup_entry("manual"@, opt_bool_json(p.manual), k);
        lemma_lookup_concat(e0 + e1 + e2 + e3 + e4 + e5 + e6 + e7 + e8 + e9, e10, k);
        lemma_lookup_concat(e0 + e1 + e2 + e3 + e4 + e5 + e6 + e7 + e8, e9, k);
        lemma_lookup_concat(e0 + e1 + e2 + e3 + e4 + e5 + e6 + e7, e8, k);
        lemma_lookup_concat(e0 + e1 + e2 + e3 + e4 + e5 + e6, e7, k);
        lemma_lookup_concat(e0 + e1 + e2 + e3 + e4 + e5, e6, k);
        lemma_lookup_concat(e0 + e1 + e2 + e3 + e4, e5, k);
        lemma_lookup_concat(e0 + e1 + e2 + e3, e4, k);
        lemma_lookup_concat(e0 + e1 + e2, e3, k);
        lemma_lookup_concat(e0 + e1, e2, k);
        lemma_lookup_concat(e0, e1, k);
    }
    assert(lookup(pomo_json(p), "manual"@) == opt_bool_json(p.manual)) by {
        let k = "manual"@;
        lemma_lookup_entry("uuid"@, opt_uuid_json(p.uuid), k);
        lemma_lookup_entry("created_at"@, opt_time_json(p.created_at), k);
        lemma_lookup_entry("updated_at"@, opt_time_json(p.updated_at), k);
        lemma_lookup_entry("description"@, Some(Json::Text(p.description)), k);
        lemma_lookup_entry("started_at"@, Some(time_json(p.started_at)), k);
        lemma_lookup_entry("ended_at"@, Some(time_json(p.ended_at)), k);
        lemma_lookup_entry("local_started_at"@, opt_time_json(p.local_started_at), k);
        lemma_lookup_entry("local_ended_at"@, opt_time_json(p.local_ended_at), k);
        lemma_lookup_entry("length"@, opt_count_json(p.length), k);
        lemma_lookup_entry("abandoned"@, opt_bool_json(p.abandoned), k);
        lemma_lookup_entry("manual"@, opt_bool_json(p.manual), k);
        lemma_lookup_concat(e0 + e1 + e2 + e3 + e4 + e5 + e6 + e7 + e8 + e9, e10, k);
        lemma_lookup_concat(e0 + e1 + e2 + e3 + e4 + e5 + e6 + e7 + e8, e9, k);
        lemma_lookup_concat(e0 + e1 + e2 + e3 + e4 + e5 + e6 + e7, e8, k);
        lemma_lookup_concat(e0 + e1 + e2 + e3 + e4 + e5 + e6, e7, k);
        lemma_lookup_concat(e0 + e1 + e2 + e3 + e4 + e5, e6, k);
        lemma_lookup_concat(e0 + e1 + e2 + e3 + e4, e5, k);
        lemma_lookup_concat(e0 + e1 + e2 + e3, e4, k);
        lemma_lookup_concat(e0 + e1 + e2, e3, k);
        lemma_lookup_concat(e0 + e1, e2, k);
        lemma_lookup_concat(e0, e1, k);
    }
}


/// Encoding a pomo to JSON members and decoding them gives the pomo back,
/// given that its instants and identifier read back from their text.
pub proof fn lemma_pomo_round_trip(p: PomoView)
    requires
        p.reads_back(),
    ensures
        pomo_from_json(pomo_json(p)) == Some(p),
{
    lemma_pomo_json_lookup(p);
}

/// An optional field of a pomo has a JSON member exactly when it holds a value.
pub proof fn lemma_pomo_json_omits_absent(p: PomoView)
    ensures
        lookup(pomo_json(p), "uuid"@) is None <==> p.uuid is None,
        lookup(pomo_json(p), "created_at"@) is None <==> p.created_at is None,
        lookup(pomo_json(p), "updated_at"@) is None <==> p.updated_at is None,
        lookup(pomo_json(p), "local_started_at"@) is None <==> p.local_started_at is None,
        lookup(pomo_json(p), "local_ended_at"@) is None <==> p.local_ended_at is None,
        lookup(pomo_json(p), "length"@) is None <==> p.length is None,
        lookup(pomo_json(p), "abandoned"@) is None <==> p.abandoned is None,
        lookup(pomo_json(p), "manual"@) is None <==> p.manual is None,
{
    lemma_pomo_json_lookup(p);
}

/// The body sent to create a pomo has no member for the fields that the
/// server assigns, whatever the pomo holds in them.
pub proof fn lemma_pomo_create_body(p: PomoView)
    ensures
        lookup(pomo_json(p.without_server_fields()), "uuid"@) is None,
        lookup(pomo_json(p.without_server_fields()), "created_at"@) is None,
        lookup(pomo_json(p.without_server_fields()), "updated_at"@) is None,
{
    lemma_pomo_json_lookup(p.without_server_fields());
}

/// The fields that a new pomo starts with; its start and end are the time
/// it was made.
pub open spec fn is_default_pomo(p: PomoView) -> bool {
    &&& p.uuid is None
    &&& p.created_at is None
    &&& p.updated_at is None
    &&& p.description == "New Pomo via Rust client"@
    &&& p.started_at == p.ended_at
    &&& p.local_started_at is None
    &&& p.local_ended_at is None
    &&& p.length is None
    &&& p.abandoned == Some(false)
    &&& p.manual == Some(true)
}

impl Default for Pomo {
    fn default() -> (r: Pomo)
        ensures
            is_default_pomo(r@),
    {
        let now = Timestamp::now();
        Pomo {
            uuid: None,
            created_at: None,
            updated_at: None,
            description: String::from_str("New Pomo via Rust client"),
            started_at: now,
            ended_at: now,
            local_started_at: None,
            local_ended_at: None,
            length: None,
            abandoned: Some(false),
            manual: Some(true),
        }
    }
}

impl Pomo {
    /// A builder that starts from `Pomo::default()`.
    pub fn builder() -> (r: PomoBuilder)
        ensures
            is_default_pomo(r@),
    {
        PomoBuilder { pomo: Pomo::default() }
    }

    /// JSON members of the pomo, with or without the fields that the server
    /// assigns.
    fn write_json(&self, server_fields: bool) -> (r: JsonObject)
        ensures
            r@ == pomo_json(if server_fields { self@ } else { self@.without_server_fields() }),
    {
        let ghost v = if server_fields { self@ } else { self@.without_server_fields() };
        let mut o = JsonObject::new();
        if server_fields {
            o.push_opt("uuid", JsonValue::from_opt_uuid(self.uuid));
            o.push_opt("created_at", JsonValue::from_opt_time(self.created_at));
            o.push_opt("updated_at", JsonValue::from_opt_time(self.updated_at));
        }
        assert(o@ =~= entry("uuid"@, opt_uuid_json(v.uuid)) + entry("created_at"@, opt_time_json(v.created_at))
            + entry("updated_at"@, opt_time_json(v.updated_at)));
        o.push_opt("description", Some(JsonValue::Text(self.description.clone())));
        o.push_opt("started_at", Some(JsonValue::from_time(self.started_at)));
        o.push_opt("ended_at", Some(JsonValue::from_time(self.ended_at)));
        o.push_opt("local_started_at", JsonValue::from_opt_time(self.local_started_at));
        o.push_opt("local_ended_at", JsonValue::from_opt_time(self.local_ended_at));
        o.push_opt("length", JsonValue::from_opt_count(self.length));
        o.push_opt("abandoned", JsonValue::from_opt_bool(self.abandoned));
        o.push_opt("manual", JsonValue::from_opt_bool(self.manual));
        o
    }

    /// The pomo as JSON members; a field with no value has no member.
    pub fn to_json(&self) -> (r: JsonObject)
        ensures
            r@ == pomo_json(self@),
    {
        self.write_json(true)
    }

    /// The body that creates this pomo: its JSON members without `uuid`,
    /// `created_at` and `updated_at`.
    pub fn create_json(&self) -> (r: JsonObject)
        ensures
            r@ == pomo_json(self@.without_server_fields()),
    {
        self.write_json(false)
    }

    /// The pomo that JSON members describe, or `None` where a required member
    /// is missing or a member has the wrong shape. Unknown members are ignored.
    pub fn from_json(obj: &JsonObject) -> (r: Option<Pomo>)
        ensures
            match r {
                Some(p) => pomo_from_json(obj@) == Some(p@),
                None => pomo_from_json(obj@) is None,
            },
    {
        let uuid = obj.read_opt_uuid("uuid");
        let created_at = obj.read_opt_time("created_at");
        let updated_at = obj.read_opt_time("updated_at");
        let description = obj.read_text("description");
        let started_at = obj.read_time("started_at");
        let ended_at = obj.read_time("ended_at");
        let local_started_at = obj.read_opt_time("local_started_at");
        let local_ended_at = obj.read_opt_time("local_ended_at");
        let length = obj.read_opt_count("length");
        let abandoned = obj.read_opt_bool("abandoned");
        let manual = obj.read_opt_bool("manual");
        match (uuid, created_at, updated_at, description, started_at, ended_at) {
            (Some(uuid), Some(created_at), Some(updated_at), Some(description), Some(started_at), Some(ended_at)) => {
                match (local_started_at, local_ended_at, length, abandoned, manual) {
                    (Some(local_started_at), Some(local_ended_at), Some(length), Some(abandoned), Some(manual)) => {
                        Some(Pomo {
                            uuid,
                            created_at,
                            updated_at,
                            description,
                            started_at,
                            ended_at,
                            local_started_at,
                            local_ended_at,
                            length,
                            abandoned,
                            manual,
                        })
                    },
                    _ => None,
                }
            },
            _ => None,
        }
    }
}

/// Stages a `Pomo`: setters for the fields a client may choose, then
/// `finish` hands the pomo out.
#[derive(Debug)]
pub struct PomoBuilder {
    pomo: Pomo,
}

impl View for PomoBuilder {
    type V = PomoView;

    closed spec fn view(&self) -> PomoView {
        self.pomo@
    }
}

impl PomoBuilder {
    pub fn started_at(self, time: Timestamp) -> (r: PomoBuilder)
        ensures
            r@ == (PomoView { started_at: time, ..self@ }),
    {
        let mut b = self;
        b.pomo.started_at = time;
        b
    }

    pub fn ended_at(self, time: Timestamp) -> (r: PomoBuilder)
        ensures
            r@ == (PomoView { ended_at: time, ..self@ }),
    {
        let mut b = self;
        b.pomo.ended_at = time;
        b
    }

    pub fn description(self, desc: &str) -> (r: PomoBuilder)
        ensures
            r@ == (PomoView { description: desc@, ..self@ }),
    {
        let mut b = self;
        b.pomo.description = String::from_str(desc);
        b
    }

    /// The staged pomo.
    pub fn finish(self) -> (r: Pomo)
        ensures
            r@ == self@,
    {
        self.pomo
    }
}

/// Filters for listing pomos. Each set field adds one `key=value` term to
/// the query string.
///
/// `PomoParameter::default()` asks for pomos that are neither abandoned nor
/// manual (`abandoned=false&manual=false`), which narrows the list.
#[derive(Debug, Clone, Copy, PartialEq, Eq, Structural)]
pub struct PomoParameter {
    pub abandoned: Option<bool>,
    pub manual: Option<bool>,
    pub started_later_than: Option<Timestamp>,
    pub started_earlier_than: Option<Timestamp>,
    pub ended_later_than: Option<Timestamp>,
    pub ended_earlier_than: Option<Timestamp>,
}

pub open spec fn opt_bool_text(o: Option<bool>) -> Option<Seq<char>> {
    match o {
        Some(b) => Some(bool_text(b)),
        None => None,
    }
}

pub open spec fn opt_display_text(o: Option<Timestamp>) -> Option<Seq<char>> {
    match o {
        Some(t) => Some(t.display_text()),
        None => None,
    }
}

pub open spec fn count_set<T>(o: Option<T>) -> int {
    if o is Some {
        1
    } else {
        0
    }
}

impl Default for PomoParameter {
    fn default() -> (r: PomoParameter)
        ensures
            r == (PomoParameter {
                abandoned: Some(false),
                manual: Some(false),
                started_later_than: None,
                started_earlier_than: None,
                ended_later_than: None,
                ended_earlier_than: None,
            }),
    {
        PomoParameter {
            abandoned: Some(false),
            manual: Some(false),
            started_later_than: None,
            started_earlier_than: None,
            ended_later_than: None,
            ended_earlier_than: None,
        }
    }
}

impl PomoParameter {
    /// A parameter set with no filter.
    pub fn new() -> (r: PomoParameter)
        ensures
            r.is_unset(),
    {
        PomoParameter {
            abandoned: None,
            manual: None,
            started_later_than: None,
            started_earlier_than: None,
            ended_later_than: None,
            ended_earlier_than: None,
        }
    }

    pub open spec fn is_unset(self) -> bool {
        &&& self.abandoned is None
        &&& self.manual is None
        &&& self.started_later_than is None
        &&& self.started_earlier_than is None
        &&& self.ended_later_than is None
        &&& self.ended_earlier_than is None
    }

    /// How many fields are set.
    pub open spec fn set_count(self) -> int {
        count_set(self.abandoned) + count_set(self.manual) + count_set(self.started_later_than)
            + count_set(self.started_earlier_than) + count_set(self.ended_later_than)
            + count_set(self.ended_earlier_than)
    }

    /// One `key=value` term per set field, in declaration order.
    pub open spec fn query_terms(self) -> Seq<Seq<char>> {
        term("abandoned"@, opt_bool_text(self.abandoned))
            + term("manual"@, opt_bool_text(self.manual))
            + term("started_later_than"@, opt_display_text(self.started_later_than))
            + term("started_earlier_than"@, opt_display_text(self.started_earlier_than))
            + term("ended_later_than"@, opt_display_text(self.ended_later_than))
            + term("ended_earlier_than"@, opt_display_text(self.ended_earlier_than))
    }

    pub fn with_abandoned(self, abandoned: bool) -> (r: PomoParameter)
        ensures
            r == (PomoParameter { abandoned: Some(abandoned), ..self }),
    {
        PomoParameter { abandoned: Some(abandoned), ..self }
    }

    pub fn with_manual(self, manual: bool) -> (r: PomoParameter)
        ensures
            r == (PomoParameter { manual: Some(manual), ..self }),
    {
        PomoParameter { manual: Some(manual), ..self }
    }

    pub fn with_started_later(self, than: Timestamp) -> (r: PomoParameter)
        ensures
            r == (PomoParameter { started_later_than: Some(than), ..self }),
    {
        PomoParameter { started_later_than: Some(than), ..self }
    }

    pub fn with_started_earlier(self, than: Timestamp) -> (r: PomoParameter)
        ensures
            r == (PomoParameter { started_earlier_than: Some(than), ..self }),
    {
        PomoParameter { started_earlier_than: Some(than), ..self }
    }

    pub fn with_ended_later(self, than: Timestamp) -> (r: PomoParameter)
        ensures
            r == (PomoParameter { ended_later_than: Some(than), ..self }),
    {
        PomoParameter { ended_later_than: Some(than), ..self }
    }

    pub fn with_ended_earlier(self, than: Timestamp) -> (r: PomoParameter)
        ensures
            r == (PomoParameter { ended_earlier_than: Some(than), ..self }),
    {
        PomoParameter { ended_earlier_than: Some(than), ..self }
    }

    /// The query string: the terms of the set fields joined by `&`.
    pub fn to_query(&self) -> (r: String)
        ensures
            r@ == join_terms(self.query_terms()),
    {
        let mut terms: Vec<String> = Vec::new();
        assert(texts_view(terms@) =~= Seq::<Seq<char>>::empty());
        push_term(&mut terms, "abandoned", opt_bool_string(self.abandoned));
        push_term(&mut terms, "manual", opt_bool_string(self.manual));
        push_term(&mut terms, "started_later_than", opt_display_string(self.started_later_than));
        push_term(&mut terms, "started_earlier_than", opt_display_string(self.started_earlier_than));
        push_term(&mut terms, "ended_later_than", opt_display_string(self.ended_later_than));
        push_term(&mut terms, "ended_earlier_than", opt_display_string(self.ended_earlier_than));
        assert(texts_view(terms@) =~= self.query_terms());
        join_query(&terms)
    }
}

fn opt_bool_string(o: Option<bool>) -> (r: Option<String>)
    ensures
        crate::fields::opt_string_view(r) == opt_bool_text(o),
{
    match o {
        Some(b) => Some(bool_string(b)),
        None => None,
    }
}

fn opt_display_string(o: Option<Timestamp>) -> (r: Option<String>)
    ensures
        crate::fields::opt_string_view(r) == opt_display_text(o),
{
    match o {
        Some(t) => Some(t.to_display_text()),
        None => None,
    }
}

/// The query string of a parameter set is empty exactly when no field is
/// set; with one field set it is that field's single `key=value` term; in
/// general it holds one term per set field, in declaration order, joined by `&`.
pub proof fn lemma_pomo_query(p: PomoParameter)
    ensures
        p.query_terms().len() == p.set_count(),
        join_terms(p.query_terms()).len() == 0 <==> p.is_unset(),
        p.set_count() == 1 ==> join_terms(p.query_terms()) == p.query_terms()[0],
{
    reveal_strlit("=");
    let t = p.query_terms();
    assert forall|i: int| 0 <= i < t.len() implies (#[trigger] t[i]).len() > 0 by {
        assert("="@.len() == 1);
    }
    lemma_join_terms(t);
}

} // verus!

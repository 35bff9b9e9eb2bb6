use vstd::prelude::*;
use vstd::string::*;

verus! {

/// A value in a JSON object, as far as this library reads JSON: scalars,
/// lists of strings, and `Other` for any other shape (a float, a nested
/// object, a list of non-strings).
#[derive(Debug, Clone, PartialEq)]
pub enum JsonValue {
    Null,
    Bool(bool),
    Number(u64),
    Text(String),
    TextList(Vec<String>),
    Other,
}

/// The mathematical form of a `JsonValue`.
pub enum Json {
    Null,
    Bool(bool),
    Number(u64),
    Text(Seq<char>),
    TextList(Seq<Seq<char>>),
    Other,
}

/// A JSON object: its members in order.
#[derive(Debug, Clone, PartialEq)]
pub struct JsonObject {
    pub fields: Vec<(String, JsonValue)>,
}

/// A response body: an object, a list of objects, or anything else.
#[derive(Debug, Clone, PartialEq)]
pub enum JsonDocument {
    Object(JsonObject),
    Array(Vec<JsonObject>),
    Other,
}

pub open spec fn texts_view(v: Seq<String>) -> Seq<Seq<char>> {
    v.map_values(|s: String| s@)
}

impl View for JsonValue {
    type V = Json;

    open spec fn view(&self) -> Json {
        match self {
            JsonValue::Null => Json::Null,
            JsonValue::Bool(b) => Json::Bool(*b),
            JsonValue::Number(n) => Json::Number(*n),
            JsonValue::Text(s) => Json::Text(s@),
            JsonValue::TextList(l) => Json::TextList(texts_view(l@)),
            JsonValue::Other => Json::Other,
        }
    }
}

pub open spec fn member_view(m: (String, JsonValue)) -> (Seq<char>, Json) {
    (m.0@, m.1@)
}

pub open spec fn members_view(v: Seq<(String, JsonValue)>) -> Seq<(Seq<char>, Json)> {
    v.map_values(|m: (String, JsonValue)| member_view(m))
}

impl View for JsonObject {
    type V = Seq<(Seq<char>, Json)>;

    open spec fn view(&self) -> Seq<(Seq<char>, Json)> {
        members_view(self.fields@)
    }
}

/// The value of the first member named `key`.
pub open spec fn lookup(fields: Seq<(Seq<char>, Json)>, key: Seq<char>) -> Option<Json>
    decreases fields.len(),
{
    if fields.len() == 0 {
        None
    } else if fields[0].0 == key {
        Some(fields[0].1)
    } else {
        lookup(fields.drop_first(), key)
    }
}

/// The member `(key, value)` where a value is given, else nothing.
pub open spec fn entry(key: Seq<char>, value: Option<Json>) -> Seq<(Seq<char>, Json)> {
    match value {
        Some(v) => seq![(key, v)],
        None => Seq::empty(),
    }
}

pub proof fn lemma_lookup_concat(a: Seq<(Seq<char>, Json)>, b: Seq<(Seq<char>, Json)>, key: Seq<char>)
    ensures
        lookup(a + b, key) == (match lookup(a, key) {
            Some(v) => Some(v),
            None => lookup(b, key),
        }),
    decreases a.len(),
{
    if a.len() > 0 {
        assert((a + b).drop_first() =~= a.drop_first() + b);
        lemma_lookup_concat(a.drop_first(), b, key);
    } else {
        assert(a + b =~= b);
    }
}

pub proof fn lemma_lookup_entry(key: Seq<char>, value: Option<Json>, k: Seq<char>)
    ensures
        lookup(entry(key, value), k) == (if k == key { value } else { None }),
{
    match value {
        Some(v) => {
            assert(entry(key, value).drop_first() =~= Seq::<(Seq<char>, Json)>::empty());
            assert(lookup(entry(key, value).drop_first(), k) is None);
        },
        None => {},
    }
}

impl JsonObject {
    pub fn new() -> (r: JsonObject)
        ensures
            r@ == Seq::<(Seq<char>, Json)>::empty(),
    {
        let r = JsonObject { fields: Vec::new() };
        assert(r@ =~= Seq::<(Seq<char>, Json)>::empty());
        r
    }

    /// Appends the member `(key, value)`.
    pub fn push(&mut self, key: &str, value: JsonValue)
        ensures
            final(self)@ == old(self)@.push((key@, value@)),
    {
        let k = String::from_str(key);
        self.fields.push((k, value));
        assert(final(self)@ =~= old(self)@.push((key@, value@)));
    }

    /// Appends the member `(key, value)` where a value is given.
    pub fn push_opt(&mut self, key: &str, value: Option<JsonValue>)
        ensures
            final(self)@ == old(self)@ + entry(key@, match value {
                Some(v) => Some(v@),
                None => None,
            }),
    {
        match value {
            Some(v) => {
                self.push(key, v);
                assert(final(self)@ =~= old(self)@ + seq![(key@, v@)]);
            },
            None => {
                assert(final(self)@ =~= old(self)@ + Seq::empty());
            },
        }
    }

    /// The value of the first member named `key`.
    pub fn get(&self, key: &str) -> (r: Option<&JsonValue>)
        ensures
            match r {
                Some(v) => lookup(self@, key@) == Some(v@),
                None => lookup(self@, key@) is None,
            },
    {
        let k = String::from_str(key);
        let mut i: usize = 0;
        assert(self@.skip(0) =~= self@);
        while i < self.fields.len()
            invariant
                i <= self.fields@.len(),
                k@ == key@,
                lookup(self@, key@) == lookup(self@.skip(i as int), key@),
            decreases self.fields@.len() - i,
        {
            assert(self@.skip(i as int).drop_first() =~= self@.skip(i + 1));
            if self.fields[i].0 == k {
                return Some(&self.fields[i].1);
            }
            i = i + 1;
        }
        None
    }
}

} // verus!

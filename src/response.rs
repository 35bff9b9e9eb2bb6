use crate::account::{account_from_json, Account, AccountView};
use crate::http::Error;
use crate::json::{Json, JsonDocument, JsonObject};
use crate::pomo::{pomo_from_json, Pomo, PomoView};
use crate::todo::{subtodo_from_json, todo_from_json, SubTodo, SubTodoView, Todo, TodoView};
use vstd::prelude::*;
use vstd::string::*;

verus! {

/// An entity that can be read from the members of a JSON object.
pub trait JsonEntity: Sized + View {
    /// The entity that the members describe, if they describe one.
    spec fn decode_spec(f: Seq<(Seq<char>, Json)>) -> Option<Self::V>;

    fn decode(obj: &JsonObject) -> (r: Option<Self>)
        ensures
            match r {
                Some(t) => Self::decode_spec(obj@) == Some(t@),
                None => Self::decode_spec(obj@) is None,
            },
    ;
}

impl JsonEntity for Pomo {
    open spec fn decode_spec(f: Seq<(Seq<char>, Json)>) -> Option<PomoView> {
        pomo_from_json(f)
    }

    fn decode(obj: &JsonObject) -> (r: Option<Pomo>) {
        Pomo::from_json(obj)
    }
}

impl JsonEntity for Todo {
    open spec fn decode_spec(f: Seq<(Seq<char>, Json)>) -> Option<TodoView> {
        todo_from_json(f)
    }

    fn decode(obj: &JsonObject) -> (r: Option<Todo>) {
        Todo::from_json(obj)
    }
}

impl JsonEntity for SubTodo {
    open spec fn decode_spec(f: Seq<(Seq<char>, Json)>) -> Option<SubTodoView> {
        subtodo_from_json(f)
    }

    fn decode(obj: &JsonObject) -> (r: Option<SubTodo>) {
        SubTodo::from_json(obj)
    }
}

impl JsonEntity for Account {
    open spec fn decode_spec(f: Seq<(Seq<char>, Json)>) -> Option<AccountView> {
        account_from_json(f)
    }

    fn decode(obj: &JsonObject) -> (r: Option<Account>) {
        Account::from_json(obj)
    }
}

/// `r` is what a sorted outcome `d` gives where one entity is expected:
/// the error, the entity that an object body describes, or a decode error.
pub open spec fn one_result<T: JsonEntity>(d: Result<JsonDocument, Error>, r: Result<T, Error>) -> bool {
    match d {
        Err(e) => r == Err::<T, Error>(e),
        Ok(JsonDocument::Object(o)) => match T::decode_spec(o@) {
            Some(v) => r matches Ok(t) && t@ == v,
            None => r matches Err(Error::Decode(_)),
        },
        Ok(_) => r matches Err(Error::Decode(_)),
    }
}

/// Every object of the list describes an entity.
pub open spec fn decodes_all<T: JsonEntity>(objs: Seq<JsonObject>) -> bool {
    forall|i: int| 0 <= i < objs.len() ==> (#[trigger] T::decode_spec(objs[i]@)) is Some
}

/// `r` is what a sorted outcome `d` gives where a list is expected: the
/// error, the entities that a list body describes in order, or a decode
/// error.
pub open spec fn list_result<T: JsonEntity>(d: Result<JsonDocument, Error>, r: Result<Vec<T>, Error>) -> bool {
    match d {
        Err(e) => r == Err::<Vec<T>, Error>(e),
        Ok(JsonDocument::Array(objs)) => if decodes_all::<T>(objs@) {
            r matches Ok(v) && v@.len() == objs@.len() && forall|i: int|
                0 <= i < objs@.len() ==> T::decode_spec(objs@[i]@) == Some(#[trigger] v@[i]@)
        } else {
            r matches Err(Error::Decode(_))
        },
        Ok(_) => r matches Err(Error::Decode(_)),
    }
}

/// `r` is what a sorted outcome `d` gives where no body is expected.
pub open spec fn unit_result(d: Result<JsonDocument, Error>, r: Result<(), Error>) -> bool {
    match d {
        Err(e) => r == Err::<(), Error>(e),
        Ok(_) => r == Ok::<(), Error>(()),
    }
}

/// Reads one entity from a sorted outcome.
pub fn read_one<T: JsonEntity>(d: Result<JsonDocument, Error>) -> (r: Result<T, Error>)
    ensures
        one_result(d, r),
{
    match d {
        Err(e) => Err(e),
        Ok(JsonDocument::Object(o)) => match T::decode(&o) {
            Some(t) => Ok(t),
            None => Err(Error::Decode(String::from_str("the response does not describe the expected item"))),
        },
        Ok(_) => Err(Error::Decode(String::from_str("the response is not a JSON object"))),
    }
}

/// Reads a list of entities from a sorted outcome.
pub fn read_list<T: JsonEntity>(d: Result<JsonDocument, Error>) -> (r: Result<Vec<T>, Error>)
    ensures
        list_result(d, r),
{
    match d {
        Err(e) => Err(e),
        Ok(JsonDocument::Array(objs)) => {
            let mut items: Vec<T> = Vec::new();
            let mut i: usize = 0;
            while i < objs.len()
                invariant
                    i <= objs@.len(),
                    items@.len() == i,
                    d == Ok::<JsonDocument, Error>(JsonDocument::Array(objs)),
                    forall|j: int| 0 <= j < i ==> (#[trigger] T::decode_spec(objs@[j]@)) is Some,
                    forall|j: int| 0 <= j < i ==> T::decode_spec(objs@[j]@) == Some(#[trigger] items@[j]@),
                decreases objs@.len() - i,
            {
                match T::decode(&objs[i]) {
                    Some(t) => {
                        items.push(t);
                    },
                    None => {
                        assert(!decodes_all::<T>(objs@));
                        return Err(Error::Decode(String::from_str("a list item does not describe the expected item")));
                    },
                }
                i = i + 1;
            }
            assert(decodes_all::<T>(objs@));
            Ok(items)
        },
        Ok(_) => Err(Error::Decode(String::from_str("the response is not a JSON list"))),
    }
}

/// Reads a sorted outcome where no body is expected.
pub fn read_unit(d: Result<JsonDocument, Error>) -> (r: Result<(), Error>)
    ensures
        unit_result(d, r),
{
    match d {
        Err(e) => Err(e),
        Ok(_) => Ok(()),
    }
}

} // verus!

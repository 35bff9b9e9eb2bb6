use crate::account::Account;
use crate::http::{body_view, check_status, status_result, Error, HttpRequest, HttpResponse, Method, TransportError};
use crate::ident::Uuid;
use crate::json::{Json, JsonDocument, JsonObject, JsonValue};
use crate::pomo::{pomo_json, Pomo, PomoParameter};
use crate::query::join_terms;
use crate::response::{list_result, one_result, read_list, read_one, read_unit, unit_result};
use crate::todo::{subtodo_json, todo_json, SubTodo, Todo, TodoParameter};
use vstd::prelude::*;
use vstd::string::*;

verus! {

pub const ACCOUNT_URL: &'static str = "https://api.pomotodo.com/1/account";

pub const POMO_URL: &'static str = "https://api.pomotodo.com/1/pomos";

pub const TODO_URL: &'static str = "https://api.pomotodo.com/1/todos";

/// `<root>/<id>`.
pub open spec fn item_url(root: Seq<char>, id: Uuid) -> Seq<char> {
    root + "/"@ + id.text()
}

/// The collection URL, with `?<query>` where the query is not empty.
pub open spec fn list_url(root: Seq<char>, query: Seq<char>) -> Seq<char> {
    if query.len() == 0 {
        root
    } else {
        root + "?"@ + query
    }
}

/// `<todos>/<parent>/sub_todos`.
pub open spec fn subtodos_url(parent: Uuid) -> Seq<char> {
    item_url(TODO_URL@, parent) + "/sub_todos"@
}

/// `<todos>/<parent>/sub_todos/<id>`.
pub open spec fn subtodo_url(parent: Uuid, id: Uuid) -> Seq<char> {
    item_url(subtodos_url(parent), id)
}

/// `send` may have been handed a request with this method, URL, token
/// and body, and its outcome, once sorted, is `d`.
pub open spec fn exchanged<F: Fn(&HttpRequest) -> Result<HttpResponse, TransportError>>(
    send: F,
    method: Method,
    url: Seq<char>,
    token: Seq<char>,
    body: Option<Seq<(Seq<char>, Json)>>,
    d: Result<JsonDocument, Error>,
) -> bool {
    exists|q: HttpRequest, out: Result<HttpResponse, TransportError>|
        #[trigger] send.ensures((&q,), out) && q.is(method, url, token, body) && d == status_result(
            out,
            method.success(),
        )
}

/// A client of the Pomotodo service that holds the access token.
///
/// Each operation builds one request, hands it to `send` (the transport:
/// it performs the request and returns the response, or why none came),
/// and reads the outcome. Nothing is retried.
#[derive(Debug, Clone)]
pub struct Client {
    token: String,
}

impl View for Client {
    type V = Seq<char>;

    /// The access token.
    closed spec fn view(&self) -> Seq<char> {
        self.token@
    }
}

fn item_url_string(root: &str, id: Uuid) -> (r: String)
    ensures
        r@ == item_url(root@, id),
{
    let mut u = String::from_str(root);
    u.append("/");
    let t = id.to_text();
    u.append(t.as_str());
    u
}

fn list_url_string(root: &str, query: String) -> (r: String)
    ensures
        r@ == list_url(root@, query@),
{
    let mut u = String::from_str(root);
    if !query.as_str().is_empty() {
        u.append("?");
        u.append(query.as_str());
    }
    u
}

fn subtodos_url_string(parent: Uuid) -> (r: String)
    ensures
        r@ == subtodos_url(parent),
{
    let mut u = item_url_string(TODO_URL, parent);
    u.append("/sub_todos");
    u
}

fn subtodo_url_string(parent: Uuid, id: Uuid) -> (r: String)
    ensures
        r@ == subtodo_url(parent, id),
{
    let root = subtodos_url_string(parent);
    item_url_string(root.as_str(), id)
}

/// `{"description": desc}`.
fn description_body(desc: &str) -> (r: JsonObject)
    ensures
        r@ == seq![("description"@, Json::Text(desc@))],
{
    let mut o = JsonObject::new();
    o.push("description", JsonValue::Text(String::from_str(desc)));
    assert(o@ =~= seq![("description"@, Json::Text(desc@))]);
    o
}

impl Default for Client {
    /// A client with an empty token.
    fn default() -> (r: Client)
        ensures
            r@ == Seq::<char>::empty(),
    {
        Client { token: String::new() }
    }
}

impl Client {
    pub fn new(token: &str) -> (r: Client)
        ensures
            r@ == token@,
    {
        Client { token: String::from_str(token) }
    }

    /// The access token.
    pub fn token(&self) -> (r: &str)
        ensures
            r@ == self@,
    {
        self.token.as_str()
    }

    /// Requests the profile of the token's account: GET `/1/account`.
    pub fn account<F>(&self, send: F) -> (r: Result<Account, Error>)
        where
            F: Fn(&HttpRequest) -> Result<HttpResponse, TransportError>,
        requires
            forall|q: &HttpRequest| send.requires((q,)),
        ensures
            exists|d: Result<JsonDocument, Error>|
                #[trigger] exchanged(send, Method::Get, ACCOUNT_URL@, self@, None, d) && one_result(d, r),
    {
        let d = self.exchange(send, Method::Get, String::from_str(ACCOUNT_URL), None);
        let ghost dg = d;
        let r = read_one(d);
        assert(exchanged(send, Method::Get, ACCOUNT_URL@, self@, None, dg) && one_result(dg, r));
        r
    }

    /// Requests the pomo `uuid`: GET `/1/pomos/<uuid>`.
    pub fn pomo<F>(&self, send: F, uuid: Uuid) -> (r: Result<Pomo, Error>)
        where
            F: Fn(&HttpRequest) -> Result<HttpResponse, TransportError>,
        requires
            forall|q: &HttpRequest| send.requires((q,)),
        ensures
            exists|d: Result<JsonDocument, Error>|
                #[trigger] exchanged(send, Method::Get, item_url(POMO_URL@, uuid), self@, None, d) && one_result(d, r),
    {
        let d = self.exchange(send, Method::Get, item_url_string(POMO_URL, uuid), None);
        let ghost dg = d;
        let r = read_one(d);
        assert(exchanged(send, Method::Get, item_url(POMO_URL@, uuid), self@, None, dg) && one_result(dg, r));
        r
    }

    /// Requests the pomos that match `param`: GET `/1/pomos`, with `?<query>`
    /// where the query string of `param` is not empty.
    pub fn pomos<F>(&self, send: F, param: &PomoParameter) -> (r: Result<Vec<Pomo>, Error>)
        where
            F: Fn(&HttpRequest) -> Result<HttpResponse, TransportError>,
        requires
            forall|q: &HttpRequest| send.requires((q,)),
        ensures
            exists|d: Result<JsonDocument, Error>|
                #[trigger] exchanged(send, Method::Get, list_url(POMO_URL@, join_terms(param.query_terms())), self@, None, d) && list_result(d, r),
    {
        let d = self.exchange(send, Method::Get, list_url_string(POMO_URL, param.to_query()), None);
        let ghost dg = d;
        let r = read_list(d);
        assert(exchanged(send, Method::Get, list_url(POMO_URL@, join_terms(param.query_terms())), self@, None, dg) && list_result(dg, r));
        r
    }

    /// Creates a pomo: POST `/1/pomos` with its JSON members, less `uuid`,
    /// `created_at` and `updated_at`.
    pub fn submit_pomo<F>(&self, send: F, pomo: &Pomo) -> (r: Result<Pomo, Error>)
        where
            F: Fn(&HttpRequest) -> Result<HttpResponse, TransportError>,
        requires
            forall|q: &HttpRequest| send.requires((q,)),
        ensures
            exists|d: Result<JsonDocument, Error>|
                #[trigger] exchanged(send, Method::Post, POMO_URL@, self@, Some(pomo_json(pomo@.without_server_fields())), d) && one_result(d, r),
    {
        let d = self.exchange(send, Method::Post, String::from_str(POMO_URL), Some(pomo.create_json()));
        let ghost dg = d;
        let r = read_one(d);
        assert(exchanged(send, Method::Post, POMO_URL@, self@, Some(pomo_json(pomo@.without_server_fields())), dg) && one_result(dg, r));
        r
    }

    /// Changes the description of the pomo `uuid`, the one field a pomo
    /// update may carry: PATCH `/1/pomos/<uuid>` with `{"description": desc}`.
    pub fn update_pomo<F>(&self, send: F, uuid: Uuid, desc: &str) -> (r: Result<Pomo, Error>)
        where
            F: Fn(&HttpRequest) -> Result<HttpResponse, TransportError>,
        requires
            forall|q: &HttpRequest| send.requires((q,)),
        ensures
            exists|d: Result<JsonDocument, Error>|
                #[trigger] exchanged(send, Method::Patch, item_url(POMO_URL@, uuid), self@, Some(seq![("description"@, Json::Text(desc@))]), d) && one_result(d, r),
    {
        let d = self.exchange(send, Method::Patch, item_url_string(POMO_URL, uuid), Some(description_body(desc)));
        let ghost dg = d;
        let r = read_one(d);
        assert(exchanged(send, Method::Patch, item_url(POMO_URL@, uuid), self@, Some(seq![("description"@, Json::Text(desc@))]), dg) && one_result(dg, r));
        r
    }

    /// Deletes the pomo `uuid`: DELETE `/1/pomos/<uuid>`.
    pub fn delete_pomo<F>(&self, send: F, uuid: Uuid) -> (r: Result<(), Error>)
        where
            F: Fn(&HttpRequest) -> Result<HttpResponse, TransportError>,
        requires
            forall|q: &HttpRequest| send.requires((q,)),
        ensures
            exists|d: Result<JsonDocument, Error>|
                #[trigger] exchanged(send, Method::Delete, item_url(POMO_URL@, uuid), self@, None, d) && unit_result(d, r),
    {
        let d = self.exchange(send, Method::Delete, item_url_string(POMO_URL, uuid), None);
        let ghost dg = d;
        let r = read_unit(d);
        assert(exchanged(send, Method::Delete, item_url(POMO_URL@, uuid), self@, None, dg) && unit_result(dg, r));
        r
    }

    /// Requests the todo `uuid`: GET `/1/todos/<uuid>`.
    pub fn todo<F>(&self, send: F, uuid: Uuid) -> (r: Result<Todo, Error>)
        where
            F: Fn(&HttpRequest) -> Result<HttpResponse, TransportError>,
        requires
            forall|q: &HttpRequest| send.requires((q,)),
        ensures
            exists|d: Result<JsonDocument, Error>|
                #[trigger] exchanged(send, Method::Get, item_url(TODO_URL@, uuid), self@, None, d) && one_result(d, r),
    {
        let d = self.exchange(send, Method::Get, item_url_string(TODO_URL, uuid), None);
        let ghost dg = d;
        let r = read_one(d);
        assert(exchanged(send, Method::Get, item_url(TODO_URL@, uuid), self@, None, dg) && one_result(dg, r));
        r
    }

    /// Requests the todos that match `param`: GET `/1/todos`, with `?<query>`
    /// where the query string of `param` is not empty.
    pub fn todos<F>(&self, send: F, param: &TodoParameter) -> (r: Result<Vec<Todo>, Error>)
        where
            F: Fn(&HttpRequest) -> Result<HttpResponse, TransportError>,
        requires
            forall|q: &HttpRequest| send.requires((q,)),
        ensures
            exists|d: Result<JsonDocument, Error>|
                #[trigger] exchanged(send, Method::Get, list_url(TODO_URL@, join_terms(param.query_terms())), self@, None, d) && list_result(d, r),
    {
        let d = self.exchange(send, Method::Get, list_url_string(TODO_URL, param.to_query()), None);
        let ghost dg = d;
        let r = read_list(d);
        assert(exchanged(send, Method::Get, list_url(TODO_URL@, join_terms(param.query_terms())), self@, None, dg) && list_result(dg, r));
        r
    }

    /// Creates a todo: POST `/1/todos` with its JSON members, less `uuid`,
    /// `created_at`, `updated_at` and `sub_todos`.
    pub fn create_todo<F>(&self, send: F, todo: &Todo) -> (r: Result<Todo, Error>)
        where
            F: Fn(&HttpRequest) -> Result<HttpResponse, TransportError>,
        requires
            forall|q: &HttpRequest| send.requires((q,)),
        ensures
            exists|d: Result<JsonDocument, Error>|
                #[trigger] exchanged(send, Method::Post, TODO_URL@, self@, Some(todo_json(todo@.without_server_fields())), d) && one_result(d, r),
    {
        let d = self.exchange(send, Method::Post, String::from_str(TODO_URL), Some(todo.write_body()));
        let ghost dg = d;
        let r = read_one(d);
        assert(exchanged(send, Method::Post, TODO_URL@, self@, Some(todo_json(todo@.without_server_fields())), dg) && one_result(dg, r));
        r
    }

    /// Updates the todo that `todo` identifies: PATCH `/1/todos/<uuid>` with its
    /// JSON members, less `uuid`, `created_at`, `updated_at` and `sub_todos`.
    /// A todo without `uuid` is refused before any request.
    pub fn update_todo<F>(&self, send: F, todo: &Todo) -> (r: Result<Todo, Error>)
        where
            F: Fn(&HttpRequest) -> Result<HttpResponse, TransportError>,
        requires
            forall|q: &HttpRequest| send.requires((q,)),
        ensures
            todo.uuid is None ==> r matches Err(Error::InvalidArgument(_)),
            todo.uuid matches Some(id) ==> exists|d: Result<JsonDocument, Error>|
                    #[trigger] exchanged(send, Method::Patch, item_url(TODO_URL@, id), self@, Some(todo_json(todo@.without_server_fields())), d) && one_result(d, r),
    {
        let id = match todo.uuid {
            Some(id) => id,
            None => return Err(Error::InvalidArgument(String::from_str("an update needs the item's uuid"))),
        };
        let d = self.exchange(send, Method::Patch, item_url_string(TODO_URL, id), Some(todo.write_body()));
        let ghost dg = d;
        let r = read_one(d);
        assert(exchanged(send, Method::Patch, item_url(TODO_URL@, id), self@, Some(todo_json(todo@.without_server_fields())), dg) && one_result(dg, r));
        r
    }

    /// Deletes the todo `uuid`: DELETE `/1/todos/<uuid>`.
    pub fn delete_todo<F>(&self, send: F, uuid: Uuid) -> (r: Result<(), Error>)
        where
            F: Fn(&HttpRequest) -> Result<HttpResponse, TransportError>,
        requires
            forall|q: &HttpRequest| send.requires((q,)),
        ensures
            exists|d: Result<JsonDocument, Error>|
                #[trigger] exchanged(send, Method::Delete, item_url(TODO_URL@, uuid), self@, None, d) && unit_result(d, r),
    {
        let d = self.exchange(send, Method::Delete, item_url_string(TODO_URL, uuid), None);
        let ghost dg = d;
        let r = read_unit(d);
        assert(exchanged(send, Method::Delete, item_url(TODO_URL@, uuid), self@, None, dg) && unit_result(dg, r));
        r
    }

    /// Requests the sub-todo `uuid` of the todo `parent`:
    /// GET `/1/todos/<parent>/sub_todos/<uuid>`.
    pub fn subtodo<F>(&self, send: F, parent: Uuid, uuid: Uuid) -> (r: Result<SubTodo, Error>)
        where
            F: Fn(&HttpRequest) -> Result<HttpResponse, TransportError>,
        requires
            forall|q: &HttpRequest| send.requires((q,)),
        ensures
            exists|d: Result<JsonDocument, Error>|
                #[trigger] exchanged(send, Method::Get, subtodo_url(parent, uuid), self@, None, d) && one_result(d, r),
    {
        let d = self.exchange(send, Method::Get, subtodo_url_string(parent, uuid), None);
        let ghost dg = d;
        let r = read_one(d);
        assert(exchanged(send, Method::Get, subtodo_url(parent, uuid), self@, None, dg) && one_result(dg, r));
        r
    }

    /// Requests the sub-todos of the todo `parent`: GET `/1/todos/<parent>/sub_todos`.
    pub fn subtodos<F>(&self, send: F, parent: Uuid) -> (r: Result<Vec<SubTodo>, Error>)
        where
            F: Fn(&HttpRequest) -> Result<HttpResponse, TransportError>,
        requires
            forall|q: &HttpRequest| send.requires((q,)),
        ensures
            exists|d: Result<JsonDocument, Error>|
                #[trigger] exchanged(send, Method::Get, subtodos_url(parent), self@, None, d) && list_result(d, r),
    {
        let d = self.exchange(send, Method::Get, subtodos_url_string(parent), None);
        let ghost dg = d;
        let r = read_list(d);
        assert(exchanged(send, Method::Get, subtodos_url(parent), self@, None, dg) && list_result(dg, r));
        r
    }

    /// Creates a sub-todo under the todo `parent`: POST
    /// `/1/todos/<parent>/sub_todos` with its JSON members, less `uuid`,
    /// `created_at` and `updated_at`.
    pub fn create_subtodo<F>(&self, send: F, parent: Uuid, sub_todo: &SubTodo) -> (r: Result<SubTodo, Error>)
        where
            F: Fn(&HttpRequest) -> Result<HttpResponse, TransportError>,
        requires
            forall|q: &HttpRequest| send.requires((q,)),
        ensures
            exists|d: Result<JsonDocument, Error>|
                #[trigger] exchanged(send, Method::Post, subtodos_url(parent), self@, Some(subtodo_json(sub_todo@.without_server_fields())), d) && one_result(d, r),
    {
        let d = self.exchange(send, Method::Post, subtodos_url_string(parent), Some(sub_todo.write_body()));
        let ghost dg = d;
        let r = read_one(d);
        assert(exchanged(send, Method::Post, subtodos_url(parent), self@, Some(subtodo_json(sub_todo@.without_server_fields())), dg) && one_result(dg, r));
        r
    }

    /// Updates the sub-todo that `sub_todo` identifies under the todo `parent`:
    /// PATCH `/1/todos/<parent>/sub_todos/<uuid>` with its JSON members, less
    /// `uuid`, `created_at` and `updated_at`. A sub-todo without `uuid` is
    /// refused before any request.
    pub fn update_subtodo<F>(&self, send: F, parent: Uuid, sub_todo: &SubTodo) -> (r: Result<SubTodo, Error>)
        where
            F: Fn(&HttpRequest) -> Result<HttpResponse, TransportError>,
        requires
            forall|q: &HttpRequest| send.requires((q,)),
        ensures
            sub_todo.uuid is None ==> r matches Err(Error::InvalidArgument(_)),
            sub_todo.uuid matches Some(id) ==> exists|d: Result<JsonDocument, Error>|
                    #[trigger] exchanged(send, Method::Patch, subtodo_url(parent, id), self@, Some(subtodo_json(sub_todo@.without_server_fields())), d) && one_result(d, r),
    {
        let id = match sub_todo.uuid {
            Some(id) => id,
            None => return Err(Error::InvalidArgument(String::from_str("an update needs the item's uuid"))),
        };
        let d = self.exchange(send, Method::Patch, subtodo_url_string(parent, id), Some(sub_todo.write_body()));
        let ghost dg = d;
        let r = read_one(d);
        assert(exchanged(send, Method::Patch, subtodo_url(parent, id), self@, Some(subtodo_json(sub_todo@.without_server_fields())), dg) && one_result(dg, r));
        r
    }

    /// Deletes the sub-todo `uuid` of the todo `parent`:
    /// DELETE `/1/todos/<parent>/sub_todos/<uuid>`.
    pub fn delete_subtodo<F>(&self, send: F, parent: Uuid, uuid: Uuid) -> (r: Result<(), Error>)
        where
            F: Fn(&HttpRequest) -> Result<HttpResponse, TransportError>,
        requires
            forall|q: &HttpRequest| send.requires((q,)),
        ensures
            exists|d: Result<JsonDocument, Error>|
                #[trigger] exchanged(send, Method::Delete, subtodo_url(parent, uuid), self@, None, d) && unit_result(d, r),
    {
        let d = self.exchange(send, Method::Delete, subtodo_url_string(parent, uuid), None);
        let ghost dg = d;
        let r = read_unit(d);
        assert(exchanged(send, Method::Delete, subtodo_url(parent, uuid), self@, None, dg) && unit_result(dg, r));
        r
    }

    /// Sends one request and sorts its outcome.
    fn exchange<F>(&self, send: F, method: Method, url: String, body: Option<JsonObject>) -> (r: Result<JsonDocument, Error>)
        where
            F: Fn(&HttpRequest) -> Result<HttpResponse, TransportError>,
        requires
            forall|q: &HttpRequest| send.requires((q,)),
        ensures
            exchanged(send, method, url@, self@, body_view(body), r),
    {
        let req = HttpRequest::new(method, url, self.token.as_str(), body);
        let out = send(&req);
        let ghost o = out;
        let r = check_status(out, method.success_status());
        assert(send.ensures((&req,), o) && req.is(method, url@, self@, body_view(body)));
        r
    }
}

} // verus!

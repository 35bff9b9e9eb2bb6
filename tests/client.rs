use std::cell::{Cell, RefCell};

use pomotodo::{
    Client, Error, HttpRequest, HttpResponse, JsonDocument, JsonObject, JsonValue, Method, Pomo,
    PomoParameter, SubTodo, Timestamp, Todo, TodoParameter, TransportError, Uuid,
};

type Outcome = Result<HttpResponse, TransportError>;

fn t0() -> Timestamp {
    Timestamp::from_unix(1_500_000_000, 0).unwrap()
}

fn id(n: u128) -> Uuid {
    Uuid::from_u128(n)
}

fn text(s: &str) -> JsonValue {
    JsonValue::Text(s.to_string())
}

fn respond(status: u16, body: JsonDocument) -> Outcome {
    Ok(HttpResponse { status, body })
}

fn header<'a>(req: &'a HttpRequest, name: &str) -> Option<&'a str> {
    req.headers.iter().find(|(k, _)| k == name).map(|(_, v)| v.as_str())
}

fn todo_object(n: u128, desc: &str) -> JsonObject {
    let mut t = Todo::builder().description(desc).finish();
    t.uuid = Some(id(n));
    t.completed = Some(false);
    t.to_json()
}

#[test]
fn create_pomo_returns_server_fields() {
    let client = Client::new("secret");
    let end = Timestamp::from_unix(1_500_000_000 + 25 * 60, 0).unwrap();
    let pomo = Pomo::builder().description("Focus block").started_at(t0()).ended_at(end).finish();
    let server_id = id(0x67e5_5044_10b1_426f_9247_bb68_0e5f_e0c8);
    let stamp = Timestamp::from_unix(1_500_001_600, 0).unwrap();
    let seen = RefCell::new(None);
    let send = |req: &HttpRequest| -> Outcome {
        let body = req.body.clone().unwrap();
        *seen.borrow_mut() = Some((req.method, req.url.clone(), body.clone()));
        let mut reply = body;
        reply.fields.push(("uuid".to_string(), JsonValue::Text(server_id.to_text())));
        reply.fields.push(("created_at".to_string(), JsonValue::Text(stamp.to_json_text())));
        reply.fields.push(("updated_at".to_string(), JsonValue::Text(stamp.to_json_text())));
        respond(201, JsonDocument::Object(reply))
    };
    let created = client.submit_pomo(send, &pomo).unwrap();
    let mut expected = pomo.clone();
    expected.uuid = Some(server_id);
    expected.created_at = Some(stamp);
    expected.updated_at = Some(stamp);
    assert_eq!(created, expected);

    let (method, url, body) = seen.into_inner().unwrap();
    assert_eq!(method, Method::Post);
    assert_eq!(url, "https://api.pomotodo.com/1/pomos");
    assert_eq!(body.get("description"), Some(&text("Focus block")));
    assert_eq!(body.get("started_at"), Some(&text("2017-07-14T02:40:00Z")));
    assert_eq!(body.get("ended_at"), Some(&text("2017-07-14T03:05:00Z")));
}

#[test]
fn create_never_sends_server_fields() {
    let client = Client::new("secret");
    let mut pomo = Pomo::default();
    pomo.uuid = Some(id(9));
    pomo.created_at = Some(t0());
    pomo.updated_at = Some(t0());
    let send = |req: &HttpRequest| -> Outcome {
        let body = req.body.clone().unwrap();
        for k in ["uuid", "created_at", "updated_at"] {
            assert!(body.get(k).is_none());
        }
        respond(201, JsonDocument::Object(body))
    };
    assert!(client.submit_pomo(send, &pomo).is_ok());

    let mut todo = Todo::default();
    todo.uuid = Some(id(9));
    todo.updated_at = Some(t0());
    todo.sub_todos = Some(vec![id(1)]);
    let send = |req: &HttpRequest| -> Outcome {
        let body = req.body.clone().unwrap();
        for k in ["uuid", "created_at", "updated_at", "sub_todos"] {
            assert!(body.get(k).is_none());
        }
        respond(201, JsonDocument::Object(body))
    };
    assert!(client.create_todo(send, &todo).is_ok());
}

#[test]
fn list_todos_sends_default_query() {
    let client = Client::new("secret");
    let send = |req: &HttpRequest| -> Outcome {
        assert_eq!(req.method, Method::Get);
        if req.url == "https://api.pomotodo.com/1/todos?completed=false" {
            respond(200, JsonDocument::Array(vec![todo_object(1, "a"), todo_object(2, "b")]))
        } else {
            respond(200, JsonDocument::Array(vec![]))
        }
    };
    let todos = client.todos(send, &TodoParameter::default()).unwrap();
    assert_eq!(todos.len(), 2);
    assert_eq!(todos[0].uuid, Some(id(1)));
    assert_eq!(todos[1].description, "b");
}

#[test]
fn list_with_empty_query_uses_bare_url() {
    let client = Client::new("secret");
    let send = |req: &HttpRequest| -> Outcome {
        assert_eq!(req.url, "https://api.pomotodo.com/1/pomos");
        assert!(req.body.is_none());
        respond(200, JsonDocument::Array(vec![]))
    };
    assert_eq!(client.pomos(send, &PomoParameter::new()).unwrap(), vec![]);
    let send = |req: &HttpRequest| -> Outcome {
        assert_eq!(req.url, "https://api.pomotodo.com/1/pomos?abandoned=false&manual=false");
        respond(200, JsonDocument::Array(vec![]))
    };
    assert!(client.pomos(send, &PomoParameter::default()).is_ok());
}

#[test]
fn delete_subtodo_not_found_is_http_error() {
    let client = Client::new("secret");
    let send = |req: &HttpRequest| -> Outcome {
        assert_eq!(req.method, Method::Delete);
        assert_eq!(
            req.url,
            format!("https://api.pomotodo.com/1/todos/{}/sub_todos/{}", id(1).to_text(), id(2).to_text())
        );
        respond(404, JsonDocument::Other)
    };
    assert_eq!(
        client.delete_subtodo(send, id(1), id(2)),
        Err(Error::Http { status: 404, body: JsonDocument::Other })
    );
}

#[test]
fn redirect_is_protocol_error() {
    let client = Client::new("secret");
    let send = |_: &HttpRequest| -> Outcome { respond(302, JsonDocument::Other) };
    assert_eq!(client.pomo(send, id(5)), Err(Error::Protocol { status: 302 }));
}

#[test]
fn unexpected_success_status_is_protocol_error() {
    let client = Client::new("secret");
    let send = |_: &HttpRequest| -> Outcome { respond(200, JsonDocument::Other) };
    assert_eq!(client.delete_pomo(send, id(5)), Err(Error::Protocol { status: 200 }));
    let send = |req: &HttpRequest| -> Outcome { respond(200, JsonDocument::Object(req.body.clone().unwrap())) };
    assert_eq!(client.create_todo(send, &Todo::default()), Err(Error::Protocol { status: 200 }));
}

#[test]
fn delete_no_content_succeeds() {
    let client = Client::new("secret");
    let send = |req: &HttpRequest| -> Outcome {
        assert_eq!(req.url, format!("https://api.pomotodo.com/1/todos/{}", id(3).to_text()));
        respond(204, JsonDocument::Other)
    };
    assert_eq!(client.delete_todo(send, id(3)), Ok(()));
}

#[test]
fn update_without_uuid_makes_no_request() {
    let client = Client::new("secret");
    let calls = Cell::new(0);
    let send = |_: &HttpRequest| -> Outcome {
        calls.set(calls.get() + 1);
        respond(200, JsonDocument::Other)
    };
    assert!(matches!(client.update_todo(&send, &Todo::default()), Err(Error::InvalidArgument(_))));
    assert!(matches!(
        client.update_subtodo(&send, id(1), &SubTodo::default()),
        Err(Error::InvalidArgument(_))
    ));
    assert_eq!(calls.get(), 0);
}

#[test]
fn update_todo_patches_its_url_without_identity() {
    let client = Client::new("secret");
    let mut todo = Todo::default();
    todo.uuid = Some(id(3));
    todo.created_at = Some(t0());
    todo.description = "Test todo patch".to_string();
    let send = |req: &HttpRequest| -> Outcome {
        assert_eq!(req.method, Method::Patch);
        assert_eq!(req.url, format!("https://api.pomotodo.com/1/todos/{}", id(3).to_text()));
        let body = req.body.clone().unwrap();
        assert!(body.get("uuid").is_none());
        assert!(body.get("created_at").is_none());
        let mut reply = body;
        reply.fields.push(("uuid".to_string(), JsonValue::Text(id(3).to_text())));
        respond(200, JsonDocument::Object(reply))
    };
    let patched = client.update_todo(send, &todo).unwrap();
    assert_eq!(patched.description, "Test todo patch");
    assert_eq!(patched.uuid, Some(id(3)));
}

#[test]
fn update_pomo_sends_only_description() {
    let client = Client::new("secret");
    let send = |req: &HttpRequest| -> Outcome {
        assert_eq!(req.method, Method::Patch);
        let body = req.body.clone().unwrap();
        assert_eq!(body.fields, vec![("description".to_string(), text("Test pomo patch"))]);
        let mut reply = Pomo::default().to_json();
        reply.fields.retain(|(k, _)| k != "description");
        reply.fields.push(("description".to_string(), text("Test pomo patch")));
        respond(200, JsonDocument::Object(reply))
    };
    assert_eq!(client.update_pomo(send, id(4), "Test pomo patch").unwrap().description, "Test pomo patch");
}

#[test]
fn every_request_carries_the_token() {
    let client = Client::new("abc123");
    assert_eq!(client.token(), "abc123");
    let send = |req: &HttpRequest| -> Outcome {
        assert_eq!(header(req, "Authorization"), Some("token abc123"));
        assert_eq!(header(req, "Content-Type"), None);
        assert_eq!(req.url, "https://api.pomotodo.com/1/account");
        respond(500, JsonDocument::Other)
    };
    assert_eq!(client.account(send), Err(Error::Http { status: 500, body: JsonDocument::Other }));
    let send = |req: &HttpRequest| -> Outcome {
        assert_eq!(header(req, "Authorization"), Some("token abc123"));
        assert_eq!(header(req, "Content-Type"), Some("application/json"));
        respond(201, JsonDocument::Object(req.body.clone().unwrap()))
    };
    assert!(client.create_subtodo(send, id(1), &SubTodo::default()).is_ok());
}

#[test]
fn transport_failure_is_transport_error() {
    let client = Client::new("secret");
    let send = |_: &HttpRequest| -> Outcome { Err(TransportError { message: "connection refused".to_string() }) };
    assert_eq!(client.todo(send, id(1)), Err(Error::Transport("connection refused".to_string())));
}

#[test]
fn bad_bodies_are_decode_errors() {
    let client = Client::new("secret");
    let send = |_: &HttpRequest| -> Outcome { respond(200, JsonDocument::Array(vec![])) };
    assert!(matches!(client.subtodo(send, id(1), id(2)), Err(Error::Decode(_))));
    let send = |_: &HttpRequest| -> Outcome { respond(200, JsonDocument::Object(JsonObject::new())) };
    assert!(matches!(client.subtodos(send, id(1)), Err(Error::Decode(_))));
    let send = |_: &HttpRequest| -> Outcome {
        respond(200, JsonDocument::Array(vec![todo_object(1, "a"), JsonObject::new()]))
    };
    assert!(matches!(client.todos(send, &TodoParameter::new()), Err(Error::Decode(_))));
    let send = |_: &HttpRequest| -> Outcome { respond(200, JsonDocument::Object(JsonObject::new())) };
    assert!(matches!(client.account(send), Err(Error::Decode(_))));
}

#[test]
fn test_session() {
    let client = Client::new("Your token here");
    let stub = |req: &HttpRequest| -> Outcome {
        let status = match req.method {
            Method::Get | Method::Patch => 200,
            Method::Post => 201,
            Method::Delete => return respond(204, JsonDocument::Other),
        };
        let mut reply = req.body.clone().unwrap_or_else(JsonObject::new);
        reply.fields.retain(|(k, _)| k != "uuid");
        reply.fields.push(("uuid".to_string(), JsonValue::Text(id(42).to_text())));
        if reply.get("started_at").is_none() {
            let p = Pomo::default().to_json();
            for k in ["started_at", "ended_at"] {
                reply.fields.push((k.to_string(), p.get(k).unwrap().clone()));
            }
        }
        respond(status, JsonDocument::Object(reply))
    };

    let mut pomo = client.submit_pomo(stub, &Pomo::default()).unwrap();
    let patched_pomo = client.update_pomo(stub, pomo.uuid.unwrap(), "Test pomo patch").unwrap();
    pomo.description = "Test pomo patch".to_string();
    assert_eq!(pomo.description, patched_pomo.description);
    assert!(client.delete_pomo(stub, pomo.uuid.unwrap()).is_ok());

    let mut todo = client.create_todo(stub, &Todo::default()).unwrap();
    todo.description = "Test todo patch".to_string();
    let patched_todo = client.update_todo(stub, &todo).unwrap();
    assert_eq!(todo.description, patched_todo.description);

    let mut sub_todo = client.create_subtodo(stub, todo.uuid.unwrap(), &SubTodo::default()).unwrap();
    sub_todo.description = "Test sub todo patch".to_string();
    let patched_sub_todo = client.update_subtodo(stub, todo.uuid.unwrap(), &sub_todo).unwrap();
    assert_eq!(sub_todo.description, patched_sub_todo.description);

    assert!(client.delete_subtodo(stub, todo.uuid.unwrap(), sub_todo.uuid.unwrap()).is_ok());
    assert!(client.delete_todo(stub, todo.uuid.unwrap()).is_ok());
}

use pomotodo::{
    Account, JsonObject, JsonValue, Pomo, RepeatType, SubTodo, Timestamp, Todo, Uuid,
};

fn t0() -> Timestamp {
    Timestamp::from_unix(1_500_000_000, 0).unwrap()
}

fn id(n: u128) -> Uuid {
    Uuid::from_u128(n)
}

fn keys(o: &JsonObject) -> Vec<String> {
    o.fields.iter().map(|(k, _)| k.clone()).collect()
}

fn text(s: &str) -> JsonValue {
    JsonValue::Text(s.to_string())
}

#[test]
fn timestamp_json_text_is_rfc3339() {
    assert_eq!(t0().to_json_text(), "2017-07-14T02:40:00Z");
    let half = Timestamp::from_unix(1_500_000_000, 500_000_000).unwrap();
    assert_eq!(half.to_json_text(), "2017-07-14T02:40:00.500Z");
    assert_eq!(Timestamp::from_json_text("2017-07-14T02:40:00.500Z"), Some(half));
}

#[test]
fn timestamp_display_text() {
    assert_eq!(t0().to_display_text(), "2017-07-14 02:40:00 UTC");
}

#[test]
fn timestamp_reads_offsets_as_utc() {
    assert_eq!(Timestamp::from_json_text("2017-07-14T04:40:00+02:00"), Some(t0()));
    assert_eq!(Timestamp::from_json_text("yesterday"), None);
}

#[test]
fn timestamp_range() {
    assert!(Timestamp::from_unix(-62_167_219_200, 0).is_some());
    assert!(Timestamp::from_unix(-62_167_219_201, 0).is_none());
    assert!(Timestamp::from_unix(253_402_300_799, 999_999_999).is_some());
    assert!(Timestamp::from_unix(253_402_300_800, 0).is_none());
    assert!(Timestamp::from_unix(0, 1_000_000_000).is_none());
}

#[test]
fn uuid_text_round_trip() {
    let u = id(0x67e5_5044_10b1_426f_9247_bb68_0e5f_e0c8);
    assert_eq!(u.to_text(), "67e55044-10b1-426f-9247-bb680e5fe0c8");
    assert_eq!(Uuid::parse("67e55044-10b1-426f-9247-bb680e5fe0c8"), Some(u));
    assert_eq!(Uuid::parse("not-a-uuid"), None);
}

#[test]
fn repeat_type_tokens_round_trip() {
    let all = [
        (RepeatType::NoRepeat, "none"),
        (RepeatType::EachDay, "each_day"),
        (RepeatType::EachWeek, "each_week"),
        (RepeatType::EachTwoWeek, "each_two_week"),
        (RepeatType::EachMonth, "each_month"),
        (RepeatType::EachYear, "each_year"),
    ];
    for (r, token) in all {
        assert_eq!(r.to_token(), token);
        assert_eq!(RepeatType::from_token(token), Some(r));
    }
}

#[test]
fn repeat_type_rejects_other_tokens() {
    for token in ["", "None", "EachDay", "each-day", "daily", "each_day ", "each_fortnight"] {
        assert_eq!(RepeatType::from_token(token), None);
    }
}

#[test]
fn pomo_default_and_builder() {
    let p = Pomo::default();
    assert_eq!(p.description, "New Pomo via Rust client");
    assert_eq!(p.uuid, None);
    assert_eq!(p.abandoned, Some(false));
    assert_eq!(p.manual, Some(true));
    assert_eq!(p.started_at, p.ended_at);

    let end = Timestamp::from_unix(1_500_001_500, 0).unwrap();
    let b = Pomo::builder().description("Focus block").started_at(t0()).ended_at(end).finish();
    assert_eq!(b.description, "Focus block");
    assert_eq!(b.started_at, t0());
    assert_eq!(b.ended_at, end);
    assert_eq!(b.manual, Some(true));
    assert_eq!(b.created_at, None);
}

#[test]
fn todo_and_subtodo_defaults() {
    let t = Todo::default();
    assert_eq!(t.description, "New Todo Item via Rust client");
    assert_eq!(t.completed, None);
    assert_eq!(t.sub_todos, None);
    let s = SubTodo::default();
    assert_eq!(s.description, "New SubTodo Item via Rust client");
    assert_eq!(Todo::builder().description("Write report").finish().description, "Write report");
    assert_eq!(SubTodo::builder().description("Outline").finish().description, "Outline");
}

#[test]
fn pomo_json_omits_absent_fields() {
    let p = Pomo::builder().description("Focus block").started_at(t0()).ended_at(t0()).finish();
    let o = p.to_json();
    assert_eq!(keys(&o), vec!["description", "started_at", "ended_at", "abandoned", "manual"]);
    assert_eq!(o.get("started_at"), Some(&text("2017-07-14T02:40:00Z")));
    assert_eq!(o.get("abandoned"), Some(&JsonValue::Bool(false)));
}

#[test]
fn pomo_json_round_trip() {
    let mut p = Pomo::default();
    p.uuid = Some(id(7));
    p.created_at = Some(t0());
    p.description = "Focus block".to_string();
    p.started_at = t0();
    p.ended_at = Timestamp::from_unix(1_500_001_500, 250_000_000).unwrap();
    p.local_ended_at = Some(t0());
    p.length = Some(1500);
    p.abandoned = None;
    let o = p.to_json();
    assert_eq!(
        keys(&o),
        vec!["uuid", "created_at", "description", "started_at", "ended_at", "local_ended_at", "length", "manual"]
    );
    assert_eq!(Pomo::from_json(&o), Some(p));
}

#[test]
fn pomo_create_json_drops_server_fields() {
    let mut p = Pomo::default();
    p.uuid = Some(id(1));
    p.created_at = Some(t0());
    p.updated_at = Some(t0());
    let body = p.create_json();
    for k in ["uuid", "created_at", "updated_at"] {
        assert!(body.get(k).is_none());
    }
    assert!(p.to_json().get("uuid").is_some());
}

#[test]
fn todo_json_round_trip_without_sub_todos() {
    let mut t = Todo::default();
    t.uuid = Some(id(3));
    t.notice = Some("bring notes".to_string());
    t.pin = Some(true);
    t.completed = Some(true);
    t.completed_at = Some(t0());
    t.repeat_type = Some(RepeatType::EachTwoWeek);
    t.estimated_pomo_count = Some(4);
    t.sub_todos = Some(vec![id(10), id(11)]);
    let o = t.to_json();
    assert!(o.get("sub_todos").is_none());
    assert_eq!(o.get("repeat_type"), Some(&text("each_two_week")));
    let back = Todo::from_json(&o).unwrap();
    let mut expected = t.clone();
    expected.sub_todos = None;
    assert_eq!(back, expected);
}

#[test]
fn todo_reads_sub_todos_from_server() {
    let mut o = Todo::builder().description("Plan").finish().to_json();
    o.fields.push((
        "sub_todos".to_string(),
        JsonValue::TextList(vec![id(10).to_text(), id(11).to_text()]),
    ));
    let t = Todo::from_json(&o).unwrap();
    assert_eq!(t.sub_todos, Some(vec![id(10), id(11)]));

    let mut bad = Todo::default().to_json();
    bad.fields.push(("sub_todos".to_string(), JsonValue::TextList(vec!["x".to_string()])));
    assert_eq!(Todo::from_json(&bad), None);
}

#[test]
fn todo_write_body_drops_server_fields() {
    let mut t = Todo::default();
    t.uuid = Some(id(3));
    t.created_at = Some(t0());
    t.updated_at = Some(t0());
    t.sub_todos = Some(vec![id(4)]);
    let body = t.write_body();
    assert_eq!(keys(&body), vec!["description"]);
}

#[test]
fn subtodo_json_round_trip() {
    let mut s = SubTodo::default();
    s.uuid = Some(id(5));
    s.parent_uuid = Some(id(6));
    s.updated_at = Some(t0());
    s.completed = Some(false);
    let o = s.to_json();
    assert_eq!(keys(&o), vec!["uuid", "parent_uuid", "updated_at", "description", "completed"]);
    assert_eq!(SubTodo::from_json(&o), Some(s.clone()));
    assert_eq!(keys(&s.write_body()), vec!["parent_uuid", "description", "completed"]);
}

#[test]
fn decode_requires_description_and_right_shapes() {
    let mut o = JsonObject::new();
    o.fields.push(("started_at".to_string(), text("2017-07-14T02:40:00Z")));
    o.fields.push(("ended_at".to_string(), text("2017-07-14T02:40:00Z")));
    assert_eq!(Pomo::from_json(&o), None);
    o.fields.push(("description".to_string(), text("d")));
    let p = Pomo::from_json(&o).unwrap();
    assert_eq!(p.manual, None);
    assert_eq!(p.length, None);

    let mut nulls = o.clone();
    nulls.fields.push(("length".to_string(), JsonValue::Null));
    nulls.fields.push(("unknown".to_string(), JsonValue::Other));
    assert_eq!(Pomo::from_json(&nulls).unwrap().length, None);

    let mut wrong = o.clone();
    wrong.fields.push(("length".to_string(), text("25")));
    assert_eq!(Pomo::from_json(&wrong), None);

    let mut bad_time = JsonObject::new();
    bad_time.fields.push(("description".to_string(), text("d")));
    bad_time.fields.push(("started_at".to_string(), text("soon")));
    bad_time.fields.push(("ended_at".to_string(), text("2017-07-14T02:40:00Z")));
    assert_eq!(Pomo::from_json(&bad_time), None);
}

#[test]
fn account_json_round_trip() {
    let a = Account {
        username: "kam".to_string(),
        email: "kam@example.com".to_string(),
        timezone: "Asia/Hong_Kong".to_string(),
        register_time: t0(),
        pro_expires_time: Timestamp::from_unix(1_600_000_000, 0).unwrap(),
    };
    let o = a.to_json();
    assert_eq!(Account::from_json(&o), Some(a));
    let mut missing = o.clone();
    missing.fields.retain(|(k, _)| k != "email");
    assert_eq!(Account::from_json(&missing), None);
}

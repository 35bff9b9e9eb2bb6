use pomotodo::{PomoParameter, Timestamp, TodoParameter};

fn t0() -> Timestamp {
    Timestamp::from_unix(1_500_000_000, 0).unwrap()
}

#[test]
fn pomo_parameter_unset_gives_empty_query() {
    assert_eq!(PomoParameter::new().to_query(), "");
}

#[test]
fn pomo_parameter_default_query() {
    assert_eq!(PomoParameter::default().to_query(), "abandoned=false&manual=false");
}

#[test]
fn pomo_parameter_single_term() {
    assert_eq!(PomoParameter::new().with_manual(true).to_query(), "manual=true");
    assert_eq!(
        PomoParameter::new().with_started_later(t0()).to_query(),
        "started_later_than=2017-07-14 02:40:00 UTC"
    );
}

#[test]
fn pomo_parameter_terms_in_declaration_order() {
    let p = PomoParameter::new()
        .with_ended_earlier(t0())
        .with_started_earlier(t0())
        .with_abandoned(true)
        .with_ended_later(t0());
    assert_eq!(
        p.to_query(),
        "abandoned=true&started_earlier_than=2017-07-14 02:40:00 UTC\
         &ended_later_than=2017-07-14 02:40:00 UTC&ended_earlier_than=2017-07-14 02:40:00 UTC"
    );
}

#[test]
fn pomo_parameter_all_fields() {
    let p = PomoParameter::default()
        .with_started_later(t0())
        .with_started_earlier(t0())
        .with_ended_later(t0())
        .with_ended_earlier(t0());
    assert_eq!(p.to_query().split('&').count(), 6);
    assert!(p.to_query().starts_with("abandoned=false&manual=false&started_later_than="));
}

#[test]
fn todo_parameter_queries() {
    assert_eq!(TodoParameter::new().to_query(), "");
    assert_eq!(TodoParameter::default().to_query(), "completed=false");
    assert_eq!(
        TodoParameter::new().with_completed_earlier(t0()).with_completed(true).to_query(),
        "completed=true&completed_earlier_than=2017-07-14 02:40:00 UTC"
    );
    assert_eq!(
        TodoParameter::new().with_completed_later(t0()).to_query(),
        "completed_later_than=2017-07-14 02:40:00 UTC"
    );
}

use crate::fields::{read_text, read_time, time_json};
use crate::json::{entry, Json, JsonObject, JsonValue};
use crate::time::Timestamp;
use vstd::prelude::*;

verus! {

/// The profile of the account that a token belongs to. It is only ever
/// read from the server.
#[derive(Debug, Clone, PartialEq)]
pub struct Account {
    pub username: String,
    pub email: String,
    pub timezone: String,
    pub register_time: Timestamp,
    pub pro_expires_time: Timestamp,
}

pub struct AccountView {
    pub username: Seq<char>,
    pub email: Seq<char>,
    pub timezone: Seq<char>,
    pub register_time: Timestamp,
    pub pro_expires_time: Timestamp,
}

impl View for Account {
    type V = AccountView;

    open spec fn view(&self) -> AccountView {
        AccountView {
            username: self.username@,
            email: self.email@,
            timezone: self.timezone@,
            register_time: self.register_time,
            pro_expires_time: self.pro_expires_time,
        }
    }
}

/// The JSON members of an account, in declaration order.
pub open spec fn account_json(a: AccountView) -> Seq<(Seq<char>, Json)> {
    entry("username"@, Some(Json::Text(a.username)))
        + entry("email"@, Some(Json::Text(a.email)))
        + entry("timezone"@, Some(Json::Text(a.timezone)))
        + entry("register_time"@, Some(time_json(a.register_time)))
        + entry("pro_expires_time"@, Some(time_json(a.pro_expires_time)))
}

/// The account that JSON members describe, if they describe one: every
/// field is required.
pub open spec fn account_from_json(f: Seq<(Seq<char>, Json)>) -> Option<AccountView> {
    let username = read_text(f, "username"@);
    let email = read_text(f, "email"@);
    let timezone = read_text(f, "timezone"@);
    let register_time = read_time(f, "register_time"@);
    let pro_expires_time = read_time(f, "pro_expires_time"@);
    if username is Some && email is Some && timezone is Some && register_time is Some
        && pro_expires_time is Some {
        Some(
            AccountView {
                username: username->0,
                email: email->0,
                timezone: timezone->0,
                register_time: register_time->0,
                pro_expires_time: pro_expires_time->0,
            },
        )
    } else {
        None
    }
}

impl Account {
    /// The account as JSON members.
    pub fn to_json(&self) -> (r: JsonObject)
        ensures
            r@ == account_json(self@),
    {
        let mut o = JsonObject::new();
        o.push_opt("username", Some(JsonValue::Text(self.username.clone())));
        o.push_opt("email", Some(JsonValue::Text(self.email.clone())));
        o.push_opt("timezone", Some(JsonValue::Text(self.timezone.clone())));
        o.push_opt("register_time", Some(JsonValue::from_time(self.register_time)));
        o.push_opt("pro_expires_time", Some(JsonValue::from_time(self.pro_expires_time)));
        assert(o@ =~= account_json(self@));
        o
    }

    /// The account that JSON members describe, or `None` where a member is
    /// missing or has the wrong shape.
    pub fn from_json(obj: &JsonObject) -> (r: Option<Account>)
        ensures
            match r {
                Some(a) => account_from_json(obj@) == Some(a@),
                None => account_from_json(obj@) is None,
            },
    {
        let username = obj.read_text("username");
        let email = obj.read_text("email");
        let timezone = obj.read_text("timezone");
        let register_time = obj.read_time("register_time");
        let pro_expires_time = obj.read_time("pro_expires_time");
        match (username, email, timezone, register_time, pro_expires_time) {
            (Some(username), Some(email), Some(timezone), Some(register_time), Some(pro_expires_time)) => {
                Some(Account { username, email, timezone, register_time, pro_expires_time })
            },
            _ => None,
        }
    }
}

} // verus!

use vstd::prelude::*;

verus! {

/// A 128-bit identifier that the server assigns to each item.
#[derive(Debug, Clone, Copy, PartialEq, Eq, Structural)]
pub struct Uuid {
    pub value: u128,
}

/// Hyphenated lower-case text of an identifier, as the uuid crate writes it.
pub uninterp spec fn hyphenated_text(value: u128) -> Seq<char>;

/// The identifier that the uuid crate reads from a text, if it reads one.
pub uninterp spec fn uuid_value(s: Seq<char>) -> Option<u128>;

impl Uuid {
    /// The identifier in URLs and JSON.
    pub open spec fn text(self) -> Seq<char> {
        hyphenated_text(self.value)
    }

    /// Reading back the text of this identifier gives it again.
    pub open spec fn reads_back(self) -> bool {
        uuid_of_text(self.text()) == Some(self)
    }

    pub fn from_u128(value: u128) -> (r: Uuid)
        ensures
            r.value == value,
    {
        Uuid { value }
    }

    pub fn as_u128(&self) -> (r: u128)
        ensures
            r == self.value,
    {
        self.value
    }

    pub fn to_text(&self) -> (r: String)
        ensures
            r@ == self.text(),
            r@.len() == 36,
    {
        format_hyphenated(self.value)
    }

    pub fn parse(s: &str) -> (r: Option<Uuid>)
        ensures
            r == uuid_of_text(s@),
    {
        match parse_uuid(s) {
            Some(value) => Some(Uuid { value }),
            None => None,
        }
    }
}

/// The identifier that a text denotes.
pub open spec fn uuid_of_text(s: Seq<char>) -> Option<Uuid> {
    match uuid_value(s) {
        Some(value) => Some(Uuid { value }),
        None => None,
    }
}

/// Relies on uuid's `Uuid::from_u128` and its `Display`, which writes the
/// hyphenated form: 32 hex digits and 4 hyphens.
#[verifier::external_body]
fn format_hyphenated(value: u128) -> (r: String)
    ensures
        r@ == hyphenated_text(value),
        r@.len() == 36,
{
    uuid::Uuid::from_u128(value).to_string()
}

/// Relies on uuid's `Uuid::parse_str` and `Uuid::as_u128`.
#[verifier::external_body]
fn parse_uuid(s: &str) -> (r: Option<u128>)
    ensures
        r == uuid_value(s@),
{
    match uuid::Uuid::parse_str(s) {
        Ok(u) => Some(u.as_u128()),
        Err(_) => None,
    }
}

} // verus!

//! The vote event and the decoder that reads it from a webhook body.

use crate::error::ErrorKind;
use crate::snowflake::{deserialize, snowflake_of};
use crate::text::{optional_text, str_eq};
use vstd::prelude::*;

verus! {

/// One vote cast for a listed bot or server.
#[derive(Clone, Debug)]
pub struct Vote {
    /// The bot or server that received the vote.
    pub receiver_id: u64,
    /// The user who voted.
    pub voter_id: u64,
    /// Whether the vote is a test sent from the page settings.
    pub is_test: bool,
    /// Whether the weekend bonus was active, so that the vote counts twice.
    pub is_weekend: bool,
    /// The query string passed through from the vote page, if any.
    pub query: Option<String>,
}

/// The mathematical value of a [`Vote`].
pub struct VoteView {
    pub receiver_id: u64,
    pub voter_id: u64,
    pub is_test: bool,
    pub is_weekend: bool,
    pub query: Option<Seq<char>>,
}

impl View for Vote {
    type V = VoteView;

    open spec fn view(&self) -> VoteView {
        VoteView {
            receiver_id: self.receiver_id,
            voter_id: self.voter_id,
            is_test: self.is_test,
            is_weekend: self.is_weekend,
            query: optional_text(self.query),
        }
    }
}

/// What a member of a JSON object holds, as far as the vote schema cares.
#[derive(Clone, Debug)]
pub enum FieldValue {
    /// A JSON string.
    Text(String),
    /// A JSON boolean.
    Flag(bool),
    /// Anything else: null, a number, an array or an object.
    Other,
}

/// One member of a JSON object.
#[derive(Clone, Debug)]
pub struct Field {
    /// The member's name.
    pub name: String,
    /// The member's value.
    pub value: FieldValue,
}

/// The mathematical value of a [`FieldValue`].
pub enum FieldValueView {
    Text(Seq<char>),
    Flag(bool),
    Other,
}

/// The mathematical value of a [`Field`].
pub struct FieldView {
    pub name: Seq<char>,
    pub value: FieldValueView,
}

impl View for FieldValue {
    type V = FieldValueView;

    open spec fn view(&self) -> FieldValueView {
        match *self {
            FieldValue::Text(s) => FieldValueView::Text(s@),
            FieldValue::Flag(b) => FieldValueView::Flag(b),
            FieldValue::Other => FieldValueView::Other,
        }
    }
}

impl View for Field {
    type V = FieldView;

    open spec fn view(&self) -> FieldView {
        FieldView { name: self.name@, value: self.value@ }
    }
}

impl DeepView for Field {
    type V = FieldView;

    open spec fn deep_view(&self) -> FieldView {
        self@
    }
}

/// `serde_json::Error`, the error of a failed parse. It is carried from the
/// parser to the decoder, which reads nothing in it.
#[verifier::external_type_specification]
#[verifier::external_body]
pub struct ExJsonError(serde_json::Error);

/// The members of the JSON object that `text` spells, in the order the parser
/// hands them out, or nothing where `text` is not one JSON object.
pub uninterp spec fn json_object(text: Seq<char>) -> Option<Seq<FieldView>>;

/// Parses `text` with `serde_json::from_str` into a `serde_json::Map` and
/// hands its members out one by one.
///
/// Nothing is claimed about which texts parse or what they hold, only that the
/// outcome depends on the text alone: it is [`json_object`] of the text.
#[verifier::external_body]
fn parse_object(text: &str) -> (parsed: Result<Vec<Field>, serde_json::Error>)
    ensures
        match parsed {
            Ok(fields) => json_object(text@) == Some(fields.deep_view()),
            Err(_) => json_object(text@) is None,
        },
{
    let object: serde_json::Map<String, serde_json::Value> = serde_json::from_str(text)?;
    Ok(object.into_iter().map(|(name, value)| Field { name, value: match value {
        serde_json::Value::String(text) => FieldValue::Text(text),
        serde_json::Value::Bool(flag) => FieldValue::Flag(flag),
        serde_json::Value::Null => FieldValue::Other,
        serde_json::Value::Number(_) => FieldValue::Other,
        serde_json::Value::Array(_) => FieldValue::Other,
        serde_json::Value::Object(_) => FieldValue::Other,
    } }).collect())
}

/// The value of the first member called `name`, if there is one.
pub open spec fn lookup(fields: Seq<FieldView>, name: Seq<char>) -> Option<FieldValueView>
    decreases fields.len(),
{
    if fields.len() == 0 {
        None
    } else if fields[0].name == name {
        Some(fields[0].value)
    } else {
        lookup(fields.drop_first(), name)
    }
}

/// Finds the first member called `name`.
pub fn find<'a>(fields: &'a Vec<Field>, name: &str) -> (found: Option<&'a FieldValue>)
    ensures
        match found {
            Some(value) => lookup(fields.deep_view(), name@) == Some(value@),
            None => lookup(fields.deep_view(), name@) is None,
        },
{
    let ghost all = fields.deep_view();
    let mut i: usize = 0;
    assert(all.skip(0) =~= all);
    while i < fields.len()
        invariant
            0 <= i <= fields.len(),
            all == fields.deep_view(),
            lookup(all, name@) == lookup(all.skip(i as int), name@),
        decreases fields.len() - i,
    {
        proof {
            let rest = all.skip(i as int);
            assert(rest[0] == fields[i as int]@);
            assert(rest.drop_first() =~= all.skip(i + 1));
        }
        if str_eq(fields[i].name.as_str(), name) {
            return Some(&fields[i].value);
        }
        i += 1;
    }
    None
}

/// The identifier that a member holds: it must be a string that denotes one.
pub open spec fn identifier_in(value: Option<FieldValueView>) -> Option<u64> {
    match value {
        Some(FieldValueView::Text(s)) => snowflake_of(s),
        _ => None,
    }
}

/// The receiver of the vote: the identifier under `bot` or under `guild`,
/// where exactly one of the two is present.
pub open spec fn receiver_in(fields: Seq<FieldView>) -> Option<u64> {
    let bot = lookup(fields, "bot"@);
    let guild = lookup(fields, "guild"@);
    if bot is Some && guild is None {
        identifier_in(bot)
    } else if bot is None && guild is Some {
        identifier_in(guild)
    } else {
        None
    }
}

/// The voter: the identifier under `user`.
pub open spec fn voter_in(fields: Seq<FieldView>) -> Option<u64> {
    identifier_in(lookup(fields, "user"@))
}

/// Whether the vote is a test: `type` must be a string, and a test is the
/// string `test`.
pub open spec fn is_test_in(fields: Seq<FieldView>) -> Option<bool> {
    match lookup(fields, "type"@) {
        Some(FieldValueView::Text(s)) => Some(s == "test"@),
        _ => None,
    }
}

/// The weekend flag: `isWeekend` is a boolean, or absent and then false.
pub open spec fn is_weekend_in(fields: Seq<FieldView>) -> Option<bool> {
    match lookup(fields, "isWeekend"@) {
        None => Some(false),
        Some(FieldValueView::Flag(b)) => Some(b),
        _ => None,
    }
}

/// The query string: `query` is a string, or absent.
pub open spec fn query_in(fields: Seq<FieldView>) -> Option<Option<Seq<char>>> {
    match lookup(fields, "query"@) {
        None => Some(None),
        Some(FieldValueView::Text(s)) => Some(Some(s)),
        _ => None,
    }
}

/// The vote that the members of an object describe, where they match the
/// schema: every part above must be there. Members with other names are
/// not looked at.
pub open spec fn vote_of(fields: Seq<FieldView>) -> Option<VoteView> {
    if receiver_in(fields) is Some && voter_in(fields) is Some && is_test_in(fields) is Some
        && is_weekend_in(fields) is Some && query_in(fields) is Some {
        Some(
            VoteView {
                receiver_id: receiver_in(fields)->0,
                voter_id: voter_in(fields)->0,
                is_test: is_test_in(fields)->0,
                is_weekend: is_weekend_in(fields)->0,
                query: query_in(fields)->0,
            },
        )
    } else {
        None
    }
}

/// The vote that a body decodes to, if any.
pub open spec fn decoded(body: Seq<char>) -> Option<VoteView> {
    match json_object(body) {
        Some(fields) => vote_of(fields),
        None => None,
    }
}

/// Reads the identifier that a member holds.
fn identifier(value: Option<&FieldValue>) -> (id: Option<u64>)
    ensures
        id == identifier_in(
            match value {
                Some(v) => Some(v@),
                None => None,
            },
        ),
{
    match value {
        Some(FieldValue::Text(s)) => match deserialize(s.as_str()) {
            Ok(id) => Some(id),
            Err(_) => None,
        },
        _ => None,
    }
}

/// Builds the vote that the members of a JSON object describe.
///
/// The receiver stands under `bot` or `guild` (one of them, not both), the
/// voter under `user`, both as identifier strings; `type` is a string, and
/// `test` marks a test vote. `isWeekend`, where present, is a boolean and
/// `query`, where present, a string. Members with other names are ignored.
/// Anything else is a malformed payload, and no vote comes out of it.
pub fn decode_fields(fields: &Vec<Field>) -> (vote: Result<Vote, ErrorKind>)
    ensures
        match vote {
            Ok(v) => vote_of(fields.deep_view()) == Some(v@),
            Err(e) => e == ErrorKind::MalformedPayload && vote_of(fields.deep_view()) is None,
        },
{
    let bot = find(fields, "bot");
    let guild = find(fields, "guild");
    let receiver = match (bot, guild) {
        (Some(_), None) => identifier(bot),
        (None, Some(_)) => identifier(guild),
        _ => None,
    };
    let receiver_id = match receiver {
        Some(id) => id,
        None => {
            return Err(ErrorKind::MalformedPayload);
        },
    };
    let voter_id = match identifier(find(fields, "user")) {
        Some(id) => id,
        None => {
            return Err(ErrorKind::MalformedPayload);
        },
    };
    let is_test = match find(fields, "type") {
        Some(FieldValue::Text(kind)) => str_eq(kind.as_str(), "test"),
        _ => {
            return Err(ErrorKind::MalformedPayload);
        },
    };
    let is_weekend = match find(fields, "isWeekend") {
        None => false,
        Some(FieldValue::Flag(flag)) => *flag,
        _ => {
            return Err(ErrorKind::MalformedPayload);
        },
    };
    let query = match find(fields, "query") {
        None => None,
        Some(FieldValue::Text(text)) => Some(text.clone()),
        _ => {
            return Err(ErrorKind::MalformedPayload);
        },
    };
    Ok(Vote { receiver_id, voter_id, is_test, is_weekend, query })
}

/// Decodes a webhook body into the vote it reports.
///
/// The body must be one JSON object whose members match the schema that
/// [`decode_fields`] describes; otherwise it is a malformed payload.
pub fn decode(body: &str) -> (vote: Result<Vote, ErrorKind>)
    ensures
        match vote {
            Ok(v) => decoded(body@) == Some(v@),
            Err(e) => e == ErrorKind::MalformedPayload && decoded(body@) is None,
        },
{
    match parse_object(body) {
        Ok(fields) => decode_fields(&fields),
        Err(_) => Err(ErrorKind::MalformedPayload),
    }
}

} // verus!

//! JSON payloads as plain data.
//!
//! `serde_json` does the parsing. What the rest of the library reads is
//! [`Json`], a value of its own with a mathematical model.

use crate::text::{same_text, Text};
use vstd::prelude::*;

verus! {

/// A JSON value.
#[derive(Debug, PartialEq, Eq)]
pub enum Json {
    /// `null`.
    Null,
    /// `true` or `false`.
    Bool(bool),
    /// A number, with its value when that is an unsigned 64-bit integer.
    Number(Option<u64>),
    /// A string.
    Text(String),
    /// An array.
    Array(Vec<Json>),
    /// An object.
    Object(Vec<Member>),
    /// A value that is only carried, as the JSON text it is written in.
    /// Reading a text never gives one.
    Verbatim(String),
}

/// One member of a JSON object.
#[derive(Debug, PartialEq, Eq)]
pub struct Member {
    /// The member's name.
    pub name: String,
    /// The member's value.
    pub value: Json,
}

/// The mathematical model of [`Json`].
pub enum JsonView {
    Null,
    Bool(bool),
    Number(Option<u64>),
    Text(Text),
    Array(Seq<JsonView>),
    Object(Seq<(Text, JsonView)>),
    Verbatim(Text),
}

/// The model of a JSON value, element by element.
pub open spec fn json_view(json: Json) -> JsonView
    decreases json,
{
    match json {
        Json::Null => JsonView::Null,
        Json::Bool(value) => JsonView::Bool(value),
        Json::Number(value) => JsonView::Number(value),
        Json::Text(text) => JsonView::Text(text@),
        Json::Verbatim(text) => JsonView::Verbatim(text@),
        Json::Array(items) => JsonView::Array(
            Seq::new(
                items@.len(),
                |i: int|
                    if 0 <= i < items@.len() {
                        json_view(items@[i])
                    } else {
                        JsonView::Null
                    },
            ),
        ),
        Json::Object(members) => JsonView::Object(
            Seq::new(
                members@.len(),
                |i: int|
                    if 0 <= i < members@.len() {
                        (members@[i].name@, json_view(members@[i].value))
                    } else {
                        (Seq::empty(), JsonView::Null)
                    },
            ),
        ),
    }
}

impl View for Json {
    type V = JsonView;

    open spec fn view(&self) -> JsonView {
        json_view(*self)
    }
}

/// The model of an object's members.
pub open spec fn members_view(members: Seq<Member>) -> Seq<(Text, JsonView)> {
    members.map_values(|member: Member| (member.name@, json_view(member.value)))
}

/// The model of an array's items.
pub open spec fn items_view(items: Seq<Json>) -> Seq<JsonView> {
    items.map_values(|item: Json| json_view(item))
}

/// An object of some members.
pub fn object(members: Vec<Member>) -> (json: Json)
    ensures
        json@ == JsonView::Object(members_view(members@)),
{
    let json = Json::Object(members);
    assert(json@->Object_0 =~= members_view(members@));
    json
}

/// An array of some items.
pub fn array(items: Vec<Json>) -> (json: Json)
    ensures
        json@ == JsonView::Array(items_view(items@)),
{
    let json = Json::Array(items);
    assert(json@->Array_0 =~= items_view(items@));
    json
}

/// A string.
pub fn string(text: &str) -> (json: Json)
    ensures
        json@ == JsonView::Text(text@),
{
    Json::Text(text.to_owned())
}

/// Add a member to an object in the making.
pub fn push_member(members: &mut Vec<Member>, name: &str, value: Json)
    ensures
        members_view(final(members)@) == members_view(old(members)@).push((name@, value@)),
{
    members.push(Member { name: name.to_owned(), value });
    assert(members_view(members@) =~= members_view(old(members)@).push((name@, value@)));
}

/// Add an item to an array in the making.
pub fn push_item(items: &mut Vec<Json>, value: Json)
    ensures
        items_view(final(items)@) == items_view(old(items)@).push(value@),
{
    items.push(value);
    assert(items_view(items@) =~= items_view(old(items)@).push(value@));
}

/// An object without members yet.
pub fn no_members() -> (members: Vec<Member>)
    ensures
        members_view(members@) == Seq::<(Text, JsonView)>::empty(),
{
    let members: Vec<Member> = Vec::new();
    assert(members_view(members@) =~= Seq::<(Text, JsonView)>::empty());
    members
}

/// An array without items yet.
pub fn no_items() -> (items: Vec<Json>)
    ensures
        items_view(items@) == Seq::<JsonView>::empty(),
{
    let items: Vec<Json> = Vec::new();
    assert(items_view(items@) =~= Seq::<JsonView>::empty());
    items
}

/// The value of the first member called `name`.
pub open spec fn find_member(members: Seq<(Text, JsonView)>, name: Text) -> Option<JsonView>
    decreases members.len(),
{
    if members.len() == 0 {
        None
    } else if members[0].0 == name {
        Some(members[0].1)
    } else {
        find_member(members.skip(1), name)
    }
}

/// A member is found by its name: an object gives the value of the first member
/// that has it, and nothing where no member does.
pub proof fn law_a_member_is_found_by_its_name(
    members: Seq<(Text, JsonView)>,
    at: int,
    name: Text,
)
    ensures
        0 <= at < members.len() && members[at].0 == name && (forall|i: int|
            0 <= i < at ==> (#[trigger] members[i]).0 != name) ==> JsonView::Object(members).member(
            name,
        ) == Some(members[at].1),
        (forall|i: int| 0 <= i < members.len() ==> (#[trigger] members[i]).0 != name)
            ==> JsonView::Object(members).member(name) is None,
    decreases members.len(),
{
    if members.len() > 0 {
        let rest = members.skip(1);
        law_a_member_is_found_by_its_name(rest, at - 1, name);
        if members[0].0 != name {
            if 0 <= at < members.len() && members[at].0 == name && (forall|i: int|
                0 <= i < at ==> (#[trigger] members[i]).0 != name) {
                assert(rest[at - 1] == members[at]);
                assert forall|i: int| 0 <= i < at - 1 implies (#[trigger] rest[i]).0 != name by {
                    assert(rest[i] == members[i + 1]);
                }
            }
            if forall|i: int| 0 <= i < members.len() ==> (#[trigger] members[i]).0 != name {
                assert forall|i: int| 0 <= i < rest.len() implies (#[trigger] rest[i]).0
                    != name by {
                    assert(rest[i] == members[i + 1]);
                }
            }
        }
    }
}

impl JsonView {
    /// The member of an object called `name`; anything else has none.
    pub open spec fn member(self, name: Text) -> Option<JsonView> {
        match self {
            JsonView::Object(members) => find_member(members, name),
            _ => None,
        }
    }

    /// The characters of a string; anything else has none.
    pub open spec fn text(self) -> Option<Text> {
        match self {
            JsonView::Text(text) => Some(text),
            _ => None,
        }
    }

    /// A member that is a string.
    pub open spec fn text_member(self, name: Text) -> Option<Text> {
        match self.member(name) {
            Some(value) => value.text(),
            None => None,
        }
    }
}

/// A string is read as its characters and as nothing else, and only an object
/// has members.
pub proof fn law_only_a_string_is_read_as_text(json: JsonView, name: Text, text: Text)
    ensures
        json.text() == Some(text) <==> json == JsonView::Text(text),
        json.text_member(name) == Some(text) <==> json.member(name) == Some(JsonView::Text(text)),
        json.member(name) is Some ==> json is Object,
{
}

impl Json {
    /// The member of an object called `name`; anything else has none.
    pub fn get(&self, name: &str) -> (found: Option<&Json>)
        ensures
            found is Some <==> self@.member(name@) is Some,
            found matches Some(value) ==> self@.member(name@) == Some(value@),
    {
        match self {
            Json::Object(members) => {
                let ghost all = self@->Object_0;
                let mut i: usize = 0;
                assert(all.skip(0) =~= all);
                while i < members.len()
                    invariant
                        i <= members@.len(),
                        all.len() == members@.len(),
                        forall|k: int|
                            0 <= k < members@.len() ==> #[trigger] all[k] == (
                                members@[k].name@,
                                members@[k].value@,
                            ),
                        find_member(all, name@) == find_member(all.skip(i as int), name@),
                        self@ == JsonView::Object(all),
                    decreases members@.len() - i,
                {
                    assert(all.skip(i as int)[0] == all[i as int]);
                    if same_text(members[i].name.as_str(), name) {
                        return Some(&members[i].value);
                    }
                    assert(all.skip(i as int).skip(1) =~= all.skip(i + 1));
                    i = i + 1;
                }
                None
            },
            _ => None,
        }
    }

    /// The characters of a string; anything else has none.
    pub fn as_text(&self) -> (text: Option<&String>)
        ensures
            text is Some <==> self@.text() is Some,
            text matches Some(found) ==> self@.text() == Some(found@),
    {
        match self {
            Json::Text(text) => Some(text),
            _ => None,
        }
    }

    /// A copy of a member that is a string.
    pub fn text_member(&self, name: &str) -> (text: Option<String>)
        ensures
            text.deep_view() == self@.text_member(name@),
    {
        match self.get(name) {
            Some(value) => match value.as_text() {
                Some(text) => Some(text.clone()),
                None => None,
            },
            None => None,
        }
    }
}

/// A parsed document of `serde_json`.
#[verifier::external_type_specification]
#[verifier::external_body]
pub struct ExValue(serde_json::Value);

/// What a `serde_json` document holds.
pub uninterp spec fn value_contents(value: serde_json::Value) -> JsonView;

/// What `serde_json` reads from a text, or says of a text that is not JSON.
pub uninterp spec fn read_json(text: Seq<char>) -> Result<JsonView, Seq<char>>;

/// What a text reads as, when it is JSON.
pub open spec fn parsed_json(text: Text) -> Option<JsonView> {
    match read_json(text) {
        Ok(json) => Some(json),
        Err(_) => None,
    }
}

/// Calls `serde_json::from_str`, a failure turned into its own words. Claims
/// only that whether the text parses, what the document then holds, and what
/// is said of a text that does not parse, depend on the text alone.
#[verifier::external_body]
fn parse_value(text: &str) -> (parsed: Result<serde_json::Value, String>)
    ensures
        match parsed {
            Ok(value) => read_json(text@) == Ok::<JsonView, Text>(value_contents(value)),
            Err(message) => read_json(text@) == Err::<JsonView, Text>(message@),
        },
{
    serde_json::from_str(text).map_err(|error: serde_json::Error| error.to_string())
}

/// Takes a `serde_json::Value` apart, variant by variant, a number read with
/// `serde_json::Number::as_u64`. Claims that the copy holds what the document
/// held.
#[verifier::external_body]
fn json_of_value(value: serde_json::Value) -> (json: Json)
    ensures
        json@ == value_contents(value),
{
    match value {
        serde_json::Value::Null => Json::Null,
        serde_json::Value::Bool(value) => Json::Bool(value),
        serde_json::Value::Number(number) => Json::Number(number.as_u64()),
        serde_json::Value::String(text) => Json::Text(text),
        serde_json::Value::Array(items) => {
            Json::Array(items.into_iter().map(json_of_value).collect())
        },
        serde_json::Value::Object(members) => Json::Object(
            members.into_iter().map(|(name, value)| Member { name, value: json_of_value(value) }).collect(),
        ),
    }
}

/// Read a text as JSON, or say why it is not.
pub fn try_parse_json(text: &str) -> (json: Result<Json, String>)
    ensures
        match json {
            Ok(value) => read_json(text@) == Ok::<JsonView, Text>(value@),
            Err(message) => read_json(text@) == Err::<JsonView, Text>(message@),
        },
{
    match parse_value(text) {
        Ok(value) => Ok(json_of_value(value)),
        Err(message) => Err(message),
    }
}

/// Read a text as JSON; `None` when it is not.
pub fn parse_json(text: &str) -> (json: Option<Json>)
    ensures
        json is Some <==> parsed_json(text@) is Some,
        json matches Some(value) ==> parsed_json(text@) == Some(value@),
{
    match try_parse_json(text) {
        Ok(value) => Some(value),
        Err(_) => None,
    }
}

/// A value's model holds what the value holds, down to the members of an object
/// and the items of an array, in their order.
pub proof fn law_a_value_is_seen_as_it_is(json: Json, at: int)
    ensures
        match json {
            Json::Null => json@ == JsonView::Null,
            Json::Bool(value) => json@ == JsonView::Bool(value),
            Json::Number(value) => json@ == JsonView::Number(value),
            Json::Text(text) => json@ == JsonView::Text(text@),
            Json::Verbatim(text) => json@ == JsonView::Verbatim(text@),
            Json::Array(items) => {
                &&& json@ is Array
                &&& json@->Array_0.len() == items@.len()
                &&& 0 <= at < items@.len() ==> json@->Array_0[at] == items@[at]@
            },
            Json::Object(members) => {
                &&& json@ is Object
                &&& json@->Object_0.len() == members@.len()
                &&& 0 <= at < members@.len() ==> json@->Object_0[at].0 == members@[at].name@
                    && json@->Object_0[at].1 == members@[at].value@
            },
        },
{
}

} // verus!

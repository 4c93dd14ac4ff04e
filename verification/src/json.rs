//! JSON documents as trees of plain values.

use serde_json::Value;
use vstd::prelude::*;

verus! {

/// A JSON document.
///
/// A number that is a non-negative integer below 2^64 is `Unsigned`; any
/// other number is kept as its decimal notation. An object keeps its members
/// in the order in which they were written.
#[derive(Debug, PartialEq, Eq)]
pub enum Json {
    Null,
    Bool(bool),
    Unsigned(u64),
    Number(String),
    String(String),
    Array(Vec<Json>),
    Object(Vec<Member>),
}

/// One member of a JSON object.
#[derive(Debug, PartialEq, Eq)]
pub struct Member {
    pub key: String,
    pub value: Json,
}

/// The mathematical value of a [`Json`].
pub ghost enum JsonView {
    Null,
    Bool(bool),
    Unsigned(u64),
    Number(Seq<char>),
    String(Seq<char>),
    Array(Seq<JsonView>),
    Object(Seq<(Seq<char>, JsonView)>),
}

/// The mathematical value of a document.
pub open spec fn json_view(json: Json) -> JsonView
    decreases json,
{
    match json {
        Json::Null => JsonView::Null,
        Json::Bool(b) => JsonView::Bool(b),
        Json::Unsigned(n) => JsonView::Unsigned(n),
        Json::Number(text) => JsonView::Number(text@),
        Json::String(text) => JsonView::String(text@),
        Json::Array(items) => JsonView::Array(
            Seq::new(
                items.len() as nat,
                |i: int|
                    if 0 <= i < items.len() {
                        json_view(items[i])
                    } else {
                        JsonView::Null
                    },
            ),
        ),
        Json::Object(members) => JsonView::Object(
            Seq::new(
                members.len() as nat,
                |i: int|
                    if 0 <= i < members.len() {
                        (members[i].key@, json_view(members[i].value))
                    } else {
                        (Seq::empty(), JsonView::Null)
                    },
            ),
        ),
    }
}

impl View for Json {
    type V = JsonView;

    open spec fn view(&self) -> JsonView {
        json_view(*self)
    }
}

impl DeepView for Json {
    type V = JsonView;

    open spec fn deep_view(&self) -> JsonView {
        json_view(*self)
    }
}

impl View for Member {
    type V = (Seq<char>, JsonView);

    open spec fn view(&self) -> (Seq<char>, JsonView) {
        (self.key@, self.value@)
    }
}

impl DeepView for Member {
    type V = (Seq<char>, JsonView);

    open spec fn deep_view(&self) -> (Seq<char>, JsonView) {
        (self.key@, self.value@)
    }
}

/// An array is its items, one by one.
pub proof fn lemma_array_view(items: Vec<Json>)
    ensures
        Json::Array(items)@ == JsonView::Array(items.deep_view()),
{
    assert(Json::Array(items)@->Array_0 =~= items.deep_view());
}

/// An object is its members, one by one.
pub proof fn lemma_object_view(members: Vec<Member>)
    ensures
        Json::Object(members)@ == JsonView::Object(members.deep_view()),
{
    assert(Json::Object(members)@->Object_0 =~= members.deep_view());
}

/// The value of the last of `members` that is named `key`, if there is one.
pub open spec fn lookup(members: Seq<(Seq<char>, JsonView)>, key: Seq<char>) -> Option<JsonView>
    decreases members.len(),
{
    if members.len() == 0 {
        None
    } else if members.last().0 == key {
        Some(members.last().1)
    } else {
        lookup(members.drop_last(), key)
    }
}

impl JsonView {
    /// Whether every number in the document is an `Unsigned`.
    pub open spec fn is_whole(self) -> bool
        decreases self,
    {
        match self {
            JsonView::Number(_) => false,
            JsonView::Array(items) => forall|i: int|
                0 <= i < items.len() ==> (#[trigger] items[i]).is_whole(),
            JsonView::Object(members) => forall|i: int|
                0 <= i < members.len() ==> (#[trigger] members[i]).1.is_whole(),
            _ => true,
        }
    }

    /// The member named `key` of an object; where the name is written more
    /// than once, the last one counts. `None` for anything but an object.
    pub open spec fn field(self, key: Seq<char>) -> Option<JsonView> {
        match self {
            JsonView::Object(members) => lookup(members, key),
            _ => None,
        }
    }
}

impl Json {
    /// The member named `key` of an object.
    pub fn get(&self, key: &str) -> (found: Option<&Json>)
        ensures
            match found {
                Some(value) => self@.field(key@) == Some(value@),
                None => self@.field(key@) is None,
            },
    {
        match self {
            Json::Object(members) => {
                let wanted: String = key.to_owned();
                let ghost all = self@->Object_0;
                assert(all.subrange(0, members.len() as int) =~= all);
                let mut i: usize = members.len();
                while i > 0
                    invariant
                        i <= members.len(),
                        wanted@ == key@,
                        self@ == JsonView::Object(all),
                        all.len() == members.len(),
                        forall|k: int| 0 <= k < members.len() ==> all[k] == members[k]@,
                        lookup(all, key@) == lookup(all.subrange(0, i as int), key@),
                    decreases i,
                {
                    i -= 1;
                    assert(all.subrange(0, i + 1).drop_last() =~= all.subrange(0, i as int));
                    assert(all.subrange(0, i + 1).last() == members[i as int]@);
                    if members[i].key == wanted {
                        return Some(&members[i].value);
                    }
                }
                None
            },
            _ => None,
        }
    }

    /// A copy of this document.
    #[verifier::loop_isolation(false)]
    pub fn duplicate(&self) -> (copy: Json)
        ensures
            copy@ == self@,
        decreases self,
    {
        match self {
            Json::Null => Json::Null,
            Json::Bool(b) => Json::Bool(*b),
            Json::Unsigned(n) => Json::Unsigned(*n),
            Json::Number(text) => Json::Number(text.clone()),
            Json::String(text) => Json::String(text.clone()),
            Json::Array(items) => {
                let mut copies: Vec<Json> = Vec::new();
                let mut i: usize = 0;
                while i < items.len()
                    invariant
                        i <= items.len(),
                        copies.len() == i,
                        forall|k: int| 0 <= k < i ==> copies[k]@ == items[k]@,
                    decreases items.len() - i,
                {
                    copies.push(items[i].duplicate());
                    i += 1;
                }
                assert(Json::Array(copies)@->Array_0 =~= self@->Array_0);
                Json::Array(copies)
            },
            Json::Object(members) => {
                let mut copies: Vec<Member> = Vec::new();
                let mut i: usize = 0;
                while i < members.len()
                    invariant
                        i <= members.len(),
                        copies.len() == i,
                        forall|k: int| 0 <= k < i ==> copies[k]@ == members[k]@,
                    decreases members.len() - i,
                {
                    copies.push(
                        Member { key: members[i].key.clone(), value: members[i].value.duplicate() },
                    );
                    i += 1;
                }
                assert(Json::Object(copies)@->Object_0 =~= self@->Object_0);
                Json::Object(copies)
            },
        }
    }
}

impl Clone for Json {
    fn clone(&self) -> (copy: Json)
        ensures
            copy@ == self@,
    {
        self.duplicate()
    }
}

impl Clone for Member {
    fn clone(&self) -> (copy: Member)
        ensures
            copy@ == self@,
    {
        Member { key: self.key.clone(), value: self.value.duplicate() }
    }
}

/// The opaque document type of `serde_json`.
#[verifier::external_type_specification]
#[verifier::external_body]
pub struct ExValue(serde_json::Value);

/// What `serde_json::from_str` makes of a text: the document it reads, or
/// the message of the error with which it refuses the text.
pub uninterp spec fn parsed_json(text: Seq<char>) -> Result<JsonView, Seq<char>>;

/// What `serde_json::to_string` writes for a document, or the message of the
/// error with which `serde_json` refuses it.
pub uninterp spec fn printed_json(json: JsonView) -> Result<Seq<char>, Seq<char>>;

/// Turns a `serde_json::Value` into a [`Json`], variant by variant. A number
/// for which `serde_json::Number::as_u64` answers becomes `Unsigned`, any
/// other one is kept as `serde_json` displays it. Nothing is claimed of the
/// result.
#[verifier::external_body]
fn tree_of_value(value: Value) -> Json {
    match value {
        Value::Null => Json::Null,
        Value::Bool(b) => Json::Bool(b),
        Value::Number(n) => match n.as_u64() {
            Some(u) => Json::Unsigned(u),
            None => Json::Number(n.to_string()),
        },
        Value::String(text) => Json::String(text),
        Value::Array(items) => Json::Array(items.into_iter().map(tree_of_value).collect()),
        Value::Object(map) => Json::Object(
            map.into_iter().map(|(key, value)| Member { key, value: tree_of_value(value) }).collect(),
        ),
    }
}

/// Turns a [`Json`] into a `serde_json::Value`, variant by variant. The
/// notation of a `Number` is read back by the `FromStr` of
/// `serde_json::Number`, whose error message is handed on. Nothing is
/// claimed of the result.
#[verifier::external_body]
fn value_of_tree(json: &Json) -> Result<Value, String> {
    Ok(match json {
        Json::Null => Value::Null,
        Json::Bool(b) => Value::Bool(*b),
        Json::Unsigned(n) => Value::from(*n),
        Json::Number(text) => Value::Number(
            text.parse::<serde_json::Number>().map_err(|error| error.to_string())?,
        ),
        Json::String(text) => Value::String(text.clone()),
        Json::Array(items) => Value::Array(items.iter().map(value_of_tree).collect::<Result<_, _>>()?),
        Json::Object(members) => Value::Object(
            members.iter().map(|m| Ok((m.key.clone(), value_of_tree(&m.value)?))).collect::<Result<_, String>>()?,
        ),
    })
}

/// Calls `serde_json::from_str` for a `serde_json::Value`. The outcome depends
/// on the text alone, so it is [`parsed_json`] of the text.
#[verifier::external_body]
pub(crate) fn parse_text(text: &str) -> (outcome: Result<Json, String>)
    ensures
        match outcome {
            Ok(json) => parsed_json(text@) == Ok::<JsonView, Seq<char>>(json@),
            Err(message) => parsed_json(text@) == Err::<JsonView, Seq<char>>(message@),
        },
{
    match serde_json::from_str::<Value>(text) {
        Ok(value) => Ok(tree_of_value(value)),
        Err(error) => Err(error.to_string()),
    }
}

/// Calls `serde_json::to_string` on the document as a `serde_json::Value`. The
/// outcome depends on the document alone, so it is [`printed_json`] of it.
///
/// `serde_json::to_string` is documented to fail only where the `Serialize`
/// of its argument fails or a map has a key that is no string. The
/// `Serialize` of a `serde_json::Value` never fails by itself and its keys
/// are strings, so the one failure left is a `Number` whose notation
/// `serde_json` does not read back: a document without a `Number` is always
/// written.
#[verifier::external_body]
pub(crate) fn print_text(json: &Json) -> (outcome: Result<String, String>)
    ensures
        match outcome {
            Ok(text) => printed_json(json@) == Ok::<Seq<char>, Seq<char>>(text@),
            Err(message) => printed_json(json@) == Err::<Seq<char>, Seq<char>>(message@),
        },
        json@.is_whole() ==> outcome is Ok,
{
    match value_of_tree(json) {
        Ok(value) => serde_json::to_string(&value).map_err(|error| error.to_string()),
        Err(message) => Err(message),
    }
}

} // verus!

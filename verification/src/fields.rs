//! Reading the members of a JSON object as typed fields, and writing typed
//! fields as members.

use crate::json::{lookup, Json, JsonView, Member};
use vstd::prelude::*;

verus! {

impl JsonView {
    /// The text of a string.
    pub open spec fn as_text(self) -> Option<Seq<char>> {
        match self {
            JsonView::String(text) => Some(text),
            _ => None,
        }
    }

    /// The value of a number that is a non-negative integer below 2^64.
    pub open spec fn as_u64(self) -> Option<u64> {
        match self {
            JsonView::Unsigned(n) => Some(n),
            _ => None,
        }
    }

    /// The value of a number that is a non-negative integer below 2^16.
    pub open spec fn as_u16(self) -> Option<u16> {
        match self {
            JsonView::Unsigned(n) => if n <= 0xffff {
                Some(n as u16)
            } else {
                None
            },
            _ => None,
        }
    }

    /// The value of `true` or `false`.
    pub open spec fn as_bool(self) -> Option<bool> {
        match self {
            JsonView::Bool(b) => Some(b),
            _ => None,
        }
    }

    /// The texts of an array that holds strings only.
    pub open spec fn as_texts(self) -> Option<Seq<Seq<char>>> {
        match self {
            JsonView::Array(items) => if forall|i: int|
                0 <= i < items.len() ==> (#[trigger] items[i]) is String {
                Some(Seq::new(items.len(), |i: int| items[i]->String_0))
            } else {
                None
            },
            _ => None,
        }
    }

    /// Whether the member named `key` is missing or `null`.
    pub open spec fn lacks(self, key: Seq<char>) -> bool {
        self.field(key) is None || self.field(key) == Some(JsonView::Null)
    }

    /// The member `key` read as a text that must be there.
    pub open spec fn text(self, key: Seq<char>) -> Option<Seq<char>> {
        match self.field(key) {
            Some(value) => value.as_text(),
            None => None,
        }
    }

    /// The member `key` read as a number below 2^64 that must be there.
    pub open spec fn unsigned(self, key: Seq<char>) -> Option<u64> {
        match self.field(key) {
            Some(value) => value.as_u64(),
            None => None,
        }
    }

    /// The member `key` read as a truth value that must be there.
    pub open spec fn flag(self, key: Seq<char>) -> Option<bool> {
        match self.field(key) {
            Some(value) => value.as_bool(),
            None => None,
        }
    }

    /// The member `key` read as an optional text: `Some(None)` where it is
    /// missing or `null`, `None` where it is there and is no string.
    pub open spec fn optional_text(self, key: Seq<char>) -> Option<Option<Seq<char>>> {
        if self.lacks(key) {
            Some(None)
        } else {
            match self.field(key)->0.as_text() {
                Some(text) => Some(Some(text)),
                None => None,
            }
        }
    }

    /// The member `key` read as an optional number below 2^64.
    pub open spec fn optional_u64(self, key: Seq<char>) -> Option<Option<u64>> {
        if self.lacks(key) {
            Some(None)
        } else {
            match self.field(key)->0.as_u64() {
                Some(n) => Some(Some(n)),
                None => None,
            }
        }
    }

    /// The member `key` read as an optional number below 2^16.
    pub open spec fn optional_u16(self, key: Seq<char>) -> Option<Option<u16>> {
        if self.lacks(key) {
            Some(None)
        } else {
            match self.field(key)->0.as_u16() {
                Some(n) => Some(Some(n)),
                None => None,
            }
        }
    }

    /// The member `key` read as an optional truth value.
    pub open spec fn optional_bool(self, key: Seq<char>) -> Option<Option<bool>> {
        if self.lacks(key) {
            Some(None)
        } else {
            match self.field(key)->0.as_bool() {
                Some(b) => Some(Some(b)),
                None => None,
            }
        }
    }

    /// The member `key` read as an optional list of texts.
    pub open spec fn optional_texts(self, key: Seq<char>) -> Option<Option<Seq<Seq<char>>>> {
        if self.lacks(key) {
            Some(None)
        } else {
            match self.field(key)->0.as_texts() {
                Some(texts) => Some(Some(texts)),
                None => None,
            }
        }
    }
}

/// The members that a field adds to an object: one where the field holds a
/// value, none where it does not.
pub open spec fn member(key: Seq<char>, value: Option<JsonView>) -> Seq<(Seq<char>, JsonView)> {
    match value {
        Some(value) => seq![(key, value)],
        None => Seq::empty(),
    }
}

/// An optional text as an optional string.
pub open spec fn text_value(field: Option<Seq<char>>) -> Option<JsonView> {
    match field {
        Some(text) => Some(JsonView::String(text)),
        None => None,
    }
}

/// An optional number as an optional JSON number.
pub open spec fn unsigned_value(field: Option<u64>) -> Option<JsonView> {
    match field {
        Some(n) => Some(JsonView::Unsigned(n)),
        None => None,
    }
}

/// An optional small number as an optional JSON number.
pub open spec fn short_value(field: Option<u16>) -> Option<JsonView> {
    match field {
        Some(n) => Some(JsonView::Unsigned(n as u64)),
        None => None,
    }
}

/// An optional truth value as an optional `true` or `false`.
pub open spec fn flag_value(field: Option<bool>) -> Option<JsonView> {
    match field {
        Some(b) => Some(JsonView::Bool(b)),
        None => None,
    }
}

/// A list of texts as an array of strings.
pub open spec fn texts_array(texts: Seq<Seq<char>>) -> JsonView {
    JsonView::Array(Seq::new(texts.len(), |i: int| JsonView::String(texts[i])))
}

/// An optional list of texts as an optional array of strings.
pub open spec fn texts_value(field: Option<Seq<Seq<char>>>) -> Option<JsonView> {
    match field {
        Some(texts) => Some(texts_array(texts)),
        None => None,
    }
}

/// Looking a name up behind a field's members: the field answers where it
/// holds a value under that name, and what stood before it answers otherwise.
pub proof fn lemma_lookup_member(
    before: Seq<(Seq<char>, JsonView)>,
    key: Seq<char>,
    value: Option<JsonView>,
    wanted: Seq<char>,
)
    ensures
        lookup(before + member(key, value), wanted) == if value is Some && key == wanted {
            value
        } else {
            lookup(before, wanted)
        },
{
    let all = before + member(key, value);
    match value {
        Some(v) => {
            assert(all.last() == (key, v));
            assert(all.drop_last() =~= before);
        },
        None => {
            assert(all =~= before);
        },
    }
}

/// Whether every number in the values of some members is an `Unsigned`.
pub open spec fn members_whole(members: Seq<(Seq<char>, JsonView)>) -> bool {
    forall|i: int| 0 <= i < members.len() ==> (#[trigger] members[i]).1.is_whole()
}

/// A field whose value holds no other number than an `Unsigned` adds no
/// other number to an object.
pub proof fn lemma_whole_member(
    before: Seq<(Seq<char>, JsonView)>,
    key: Seq<char>,
    value: Option<JsonView>,
)
    requires
        members_whole(before),
        value matches Some(v) ==> v.is_whole(),
    ensures
        members_whole(before + member(key, value)),
{
    let all = before + member(key, value);
    assert forall|i: int| 0 <= i < all.len() implies (#[trigger] all[i]).1.is_whole() by {
        if i < before.len() {
            assert(all[i] == before[i]);
        }
    }
}

/// An array of strings holds no number.
pub proof fn lemma_texts_whole(texts: Seq<Seq<char>>)
    ensures
        texts_array(texts).is_whole(),
{
    let items = texts_array(texts)->Array_0;
    assert forall|i: int| 0 <= i < items.len() implies (#[trigger] items[i]).is_whole() by {
        assert(items[i] == JsonView::String(texts[i]));
    }
}

/// An array of strings reads back as the texts it was made of.
pub proof fn lemma_texts_read_back(texts: Seq<Seq<char>>)
    ensures
        texts_array(texts).as_texts() == Some(texts),
{
    assert(texts_array(texts).as_texts()->0 =~= texts);
}

impl Json {
    /// Whether this is an object.
    pub fn is_object(&self) -> (answer: bool)
        ensures
            answer == (self@ is Object),
    {
        match self {
            Json::Object(_) => true,
            _ => false,
        }
    }

    /// The text of a string.
    pub fn as_text(&self) -> (read: Option<String>)
        ensures
            read.deep_view() == self@.as_text(),
    {
        match self {
            Json::String(text) => Some(text.clone()),
            _ => None,
        }
    }

    /// The value of a number that is a non-negative integer below 2^64.
    pub fn as_u64(&self) -> (read: Option<u64>)
        ensures
            read == self@.as_u64(),
    {
        match self {
            Json::Unsigned(n) => Some(*n),
            _ => None,
        }
    }

    /// The value of a number that is a non-negative integer below 2^16.
    pub fn as_u16(&self) -> (read: Option<u16>)
        ensures
            read == self@.as_u16(),
    {
        match self {
            Json::Unsigned(n) => if *n <= 0xffff {
                Some(*n as u16)
            } else {
                None
            },
            _ => None,
        }
    }

    /// The value of `true` or `false`.
    pub fn as_bool(&self) -> (read: Option<bool>)
        ensures
            read == self@.as_bool(),
    {
        match self {
            Json::Bool(b) => Some(*b),
            _ => None,
        }
    }

    /// The texts of an array that holds strings only.
    pub fn as_texts(&self) -> (read: Option<Vec<String>>)
        ensures
            read.deep_view() == self@.as_texts(),
    {
        match self {
            Json::Array(items) => {
                let ghost all = self@->Array_0;
                let mut texts: Vec<String> = Vec::new();
                let mut i: usize = 0;
                while i < items.len()
                    invariant
                        i <= items.len(),
                        texts.len() == i,
                        self@ == JsonView::Array(all),
                        all.len() == items.len(),
                        forall|k: int| 0 <= k < items.len() ==> all[k] == items[k]@,
                        forall|k: int| 0 <= k < i ==> all[k] is String,
                        forall|k: int| 0 <= k < i ==> texts[k]@ == all[k]->String_0,
                    decreases items.len() - i,
                {
                    match &items[i] {
                        Json::String(text) => {
                            texts.push(text.clone());
                        },
                        _ => {
                            assert(!(all[i as int] is String));
                            return None;
                        },
                    }
                    i += 1;
                }
                assert(texts.deep_view() =~= self@.as_texts()->0);
                Some(texts)
            },
            _ => None,
        }
    }

    /// The member `key` read as a text that must be there.
    pub fn text(&self, key: &str) -> (read: Option<String>)
        ensures
            read.deep_view() == self@.text(key@),
    {
        match self.get(key) {
            Some(value) => value.as_text(),
            None => None,
        }
    }

    /// The member `key` read as a number below 2^64 that must be there.
    pub fn unsigned(&self, key: &str) -> (read: Option<u64>)
        ensures
            read == self@.unsigned(key@),
    {
        match self.get(key) {
            Some(value) => value.as_u64(),
            None => None,
        }
    }

    /// The member `key` read as a truth value that must be there.
    pub fn flag(&self, key: &str) -> (read: Option<bool>)
        ensures
            read == self@.flag(key@),
    {
        match self.get(key) {
            Some(value) => value.as_bool(),
            None => None,
        }
    }

    /// The member `key` read as an optional text.
    pub fn optional_text(&self, key: &str) -> (read: Option<Option<String>>)
        ensures
            read.deep_view() == self@.optional_text(key@),
    {
        match self.get(key) {
            None => Some(None),
            Some(Json::Null) => Some(None),
            Some(value) => match value.as_text() {
                Some(text) => Some(Some(text)),
                None => None,
            },
        }
    }

    /// The member `key` read as an optional number below 2^64.
    pub fn optional_u64(&self, key: &str) -> (read: Option<Option<u64>>)
        ensures
            read == self@.optional_u64(key@),
    {
        match self.get(key) {
            None => Some(None),
            Some(Json::Null) => Some(None),
            Some(value) => match value.as_u64() {
                Some(n) => Some(Some(n)),
                None => None,
            },
        }
    }

    /// The member `key` read as an optional number below 2^16.
    pub fn optional_u16(&self, key: &str) -> (read: Option<Option<u16>>)
        ensures
            read == self@.optional_u16(key@),
    {
        match self.get(key) {
            None => Some(None),
            Some(Json::Null) => Some(None),
            Some(value) => match value.as_u16() {
                Some(n) => Some(Some(n)),
                None => None,
            },
        }
    }

    /// The member `key` read as an optional truth value.
    pub fn optional_bool(&self, key: &str) -> (read: Option<Option<bool>>)
        ensures
            read == self@.optional_bool(key@),
    {
        match self.get(key) {
            None => Some(None),
            Some(Json::Null) => Some(None),
            Some(value) => match value.as_bool() {
                Some(b) => Some(Some(b)),
                None => None,
            },
        }
    }

    /// The member `key` read as an optional list of texts.
    pub fn optional_texts(&self, key: &str) -> (read: Option<Option<Vec<String>>>)
        ensures
            read.deep_view() == self@.optional_texts(key@),
    {
        match self.get(key) {
            None => Some(None),
            Some(Json::Null) => Some(None),
            Some(value) => match value.as_texts() {
                Some(texts) => Some(Some(texts)),
                None => None,
            },
        }
    }

    /// An array of strings that holds the given texts.
    pub fn from_texts(texts: &Vec<String>) -> (json: Json)
        ensures
            json@ == texts_array(texts.deep_view()),
    {
        let mut items: Vec<Json> = Vec::new();
        let mut i: usize = 0;
        while i < texts.len()
            invariant
                i <= texts.len(),
                items.len() == i,
                forall|k: int| 0 <= k < i ==> items[k]@ == JsonView::String(texts[k]@),
            decreases texts.len() - i,
        {
            items.push(Json::String(texts[i].clone()));
            i += 1;
        }
        let json = Json::Array(items);
        assert(json@->Array_0 =~= texts_array(texts.deep_view())->Array_0);
        json
    }
}

/// Adds a member named `key` that holds `value`.
pub fn put(members: &mut Vec<Member>, key: &str, value: Json)
    ensures
        final(members).deep_view() == old(members).deep_view() + member(key@, Some(value@)),
{
    members.push(Member { key: key.to_owned(), value });
    assert(members.deep_view() =~= old(members).deep_view() + member(key@, Some(value@)));
}

/// Adds a text field: a string member where the field holds a text.
pub fn put_text(members: &mut Vec<Member>, key: &str, field: &Option<String>)
    ensures
        final(members).deep_view() == old(members).deep_view() + member(
            key@,
            text_value(field.deep_view()),
        ),
{
    match field {
        Some(text) => put(members, key, Json::String(text.clone())),
        None => {
            assert(members.deep_view() + member(key@, None) =~= members.deep_view());
        },
    }
}

/// Adds a number field: a number member where the field holds a number.
pub fn put_u64(members: &mut Vec<Member>, key: &str, field: Option<u64>)
    ensures
        final(members).deep_view() == old(members).deep_view() + member(
            key@,
            unsigned_value(field),
        ),
{
    match field {
        Some(n) => put(members, key, Json::Unsigned(n)),
        None => {
            assert(members.deep_view() + member(key@, None) =~= members.deep_view());
        },
    }
}

/// Adds a small number field: a number member where the field holds a number.
pub fn put_u16(members: &mut Vec<Member>, key: &str, field: Option<u16>)
    ensures
        final(members).deep_view() == old(members).deep_view() + member(key@, short_value(field)),
{
    match field {
        Some(n) => put(members, key, Json::Unsigned(n as u64)),
        None => {
            assert(members.deep_view() + member(key@, None) =~= members.deep_view());
        },
    }
}

/// Adds a truth value field: a member where the field holds a value.
pub fn put_bool(members: &mut Vec<Member>, key: &str, field: Option<bool>)
    ensures
        final(members).deep_view() == old(members).deep_view() + member(key@, flag_value(field)),
{
    match field {
        Some(b) => put(members, key, Json::Bool(b)),
        None => {
            assert(members.deep_view() + member(key@, None) =~= members.deep_view());
        },
    }
}

/// Adds a field of texts: an array member where the field holds a list.
pub fn put_texts(members: &mut Vec<Member>, key: &str, field: &Option<Vec<String>>)
    ensures
        final(members).deep_view() == old(members).deep_view() + member(
            key@,
            texts_value(field.deep_view()),
        ),
{
    match field {
        Some(texts) => put(members, key, Json::from_texts(texts)),
        None => {
            assert(members.deep_view() + member(key@, None) =~= members.deep_view());
        },
    }
}

} // verus!

//! Domains and the DNSSEC keys that the provider publishes for them.

use crate::fields::{
    flag_value, lemma_lookup_member, lemma_texts_read_back, lemma_texts_whole, lemma_whole_member,
    member, put, put_bool, put_text, put_texts, put_u16, short_value, text_value, texts_value,
};
use crate::json::{lemma_array_view, lemma_object_view, Json, JsonView, Member};
use vstd::prelude::*;

verus! {

/// The key material that the provider publishes for a domain.
#[derive(Debug, Clone, PartialEq, Eq)]
pub struct DNSSECKeyInfo {
    pub dnskey: Option<String>,
    pub ds: Option<Vec<String>>,
    pub keyflags: Option<u16>,
    pub keytype: Option<String>,
    pub managed: Option<bool>,
}

/// The mathematical value of a [`DNSSECKeyInfo`].
pub ghost struct DNSSECKeyInfoView {
    pub dnskey: Option<Seq<char>>,
    pub ds: Option<Seq<Seq<char>>>,
    pub keyflags: Option<u16>,
    pub keytype: Option<Seq<char>>,
    pub managed: Option<bool>,
}

impl DeepView for DNSSECKeyInfo {
    type V = DNSSECKeyInfoView;

    open spec fn deep_view(&self) -> DNSSECKeyInfoView {
        DNSSECKeyInfoView {
            dnskey: self.dnskey.deep_view(),
            ds: self.ds.deep_view(),
            keyflags: self.keyflags,
            keytype: self.keytype.deep_view(),
            managed: self.managed,
        }
    }
}

impl View for DNSSECKeyInfo {
    type V = DNSSECKeyInfoView;

    open spec fn view(&self) -> DNSSECKeyInfoView {
        self.deep_view()
    }
}

/// The names of the fields of a key differ in their length or in their
/// first letter.
proof fn lemma_key_names_differ()
    ensures
        "dnskey"@.len() == 6,
        "ds"@.len() == 2,
        "flags"@.len() == 5,
        "keytype"@.len() == 7 && "keytype"@[0] == 'k',
        "managed"@.len() == 7 && "managed"@[0] == 'm',
{
    reveal_strlit("dnskey");
    reveal_strlit("ds");
    reveal_strlit("flags");
    reveal_strlit("keytype");
    reveal_strlit("managed");
}

impl DNSSECKeyInfoView {
    /// The key of which no field holds a value.
    pub open spec fn empty() -> DNSSECKeyInfoView {
        DNSSECKeyInfoView { dnskey: None, ds: None, keyflags: None, keytype: None, managed: None }
    }

    /// The members of the object that stands for this key: one for each
    /// field that holds a value, in the order of the fields. The flags go
    /// under the name `flags`.
    pub open spec fn members(self) -> Seq<(Seq<char>, JsonView)> {
        Seq::empty() + member("dnskey"@, text_value(self.dnskey)) + member(
            "ds"@,
            texts_value(self.ds),
        ) + member("flags"@, short_value(self.keyflags)) + member(
            "keytype"@,
            text_value(self.keytype),
        ) + member("managed"@, flag_value(self.managed))
    }

    /// The JSON object that stands for this key.
    pub open spec fn to_json(self) -> JsonView {
        JsonView::Object(self.members())
    }

    /// Whether `key` names a field of this key that holds a value.
    pub open spec fn holds(self, key: Seq<char>) -> bool {
        ||| key == "dnskey"@ && self.dnskey is Some
        ||| key == "ds"@ && self.ds is Some
        ||| key == "flags"@ && self.keyflags is Some
        ||| key == "keytype"@ && self.keytype is Some
        ||| key == "managed"@ && self.managed is Some
    }

    /// The key that a JSON document stands for: the document is an object,
    /// each field is read from the member of its name, a member that is
    /// missing or `null` leaves its field without a value, and members of
    /// other names are passed over. `None` where the document is no object
    /// or a member does not have the type of its field.
    pub open spec fn from_json(json: JsonView) -> Option<DNSSECKeyInfoView> {
        if json is Object && json.optional_text("dnskey"@) is Some && json.optional_texts("ds"@)
            is Some && json.optional_u16("flags"@) is Some && json.optional_text("keytype"@)
            is Some && json.optional_bool("managed"@) is Some {
            Some(
                DNSSECKeyInfoView {
                    dnskey: json.optional_text("dnskey"@)->0,
                    ds: json.optional_texts("ds"@)->0,
                    keyflags: json.optional_u16("flags"@)->0,
                    keytype: json.optional_text("keytype"@)->0,
                    managed: json.optional_bool("managed"@)->0,
                },
            )
        } else {
            None
        }
    }

    /// The JSON array that stands for a list of keys.
    pub open spec fn list_to_json(list: Seq<DNSSECKeyInfoView>) -> JsonView {
        JsonView::Array(Seq::new(list.len(), |i: int| list[i].to_json()))
    }

    /// The list of keys that a JSON document stands for: the document is an
    /// array and each of its items stands for a key.
    pub open spec fn list_from_json(json: JsonView) -> Option<Seq<DNSSECKeyInfoView>> {
        match json {
            JsonView::Array(items) => if forall|i: int|
                0 <= i < items.len() ==> Self::from_json(#[trigger] items[i]) is Some {
                Some(Seq::new(items.len(), |i: int| Self::from_json(items[i])->0))
            } else {
                None
            },
            _ => None,
        }
    }

    /// What the object of this key holds under a name: the value of the
    /// field of that name.
    pub proof fn lemma_field(self, key: Seq<char>)
        ensures
            self.to_json().field(key) == if key == "dnskey"@ {
                text_value(self.dnskey)
            } else if key == "ds"@ {
                texts_value(self.ds)
            } else if key == "flags"@ {
                short_value(self.keyflags)
            } else if key == "keytype"@ {
                text_value(self.keytype)
            } else if key == "managed"@ {
                flag_value(self.managed)
            } else {
                None
            },
    {
        lemma_key_names_differ();
        let m0 = Seq::<(Seq<char>, JsonView)>::empty();
        let m1 = m0 + member("dnskey"@, text_value(self.dnskey));
        let m2 = m1 + member("ds"@, texts_value(self.ds));
        let m3 = m2 + member("flags"@, short_value(self.keyflags));
        let m4 = m3 + member("keytype"@, text_value(self.keytype));
        lemma_lookup_member(m0, "dnskey"@, text_value(self.dnskey), key);
        lemma_lookup_member(m1, "ds"@, texts_value(self.ds), key);
        lemma_lookup_member(m2, "flags"@, short_value(self.keyflags), key);
        lemma_lookup_member(m3, "keytype"@, text_value(self.keytype), key);
        lemma_lookup_member(m4, "managed"@, flag_value(self.managed), key);
    }

    /// A field without a value is left out when the key is written, and no
    /// member is ever `null`.
    pub proof fn lemma_absent_fields_are_omitted(self, key: Seq<char>)
        ensures
            self.to_json().field(key) is Some <==> self.holds(key),
            self.to_json().field(key) != Some(JsonView::Null),
    {
        lemma_key_names_differ();
        self.lemma_field(key);
    }

    /// Writing a key and reading the result gives the key back.
    pub proof fn lemma_round_trip(self)
        ensures
            Self::from_json(self.to_json()) == Some(self),
    {
        lemma_key_names_differ();
        self.lemma_field("dnskey"@);
        self.lemma_field("ds"@);
        self.lemma_field("flags"@);
        self.lemma_field("keytype"@);
        self.lemma_field("managed"@);
        if self.ds is Some {
            lemma_texts_read_back(self.ds->0);
        }
    }

    /// The object of a key holds no number but the flags, which are an
    /// `Unsigned`: it can always be written as text.
    pub proof fn lemma_whole(self)
        ensures
            self.to_json().is_whole(),
    {
        let m0 = Seq::<(Seq<char>, JsonView)>::empty();
        let m1 = m0 + member("dnskey"@, text_value(self.dnskey));
        let m2 = m1 + member("ds"@, texts_value(self.ds));
        let m3 = m2 + member("flags"@, short_value(self.keyflags));
        let m4 = m3 + member("keytype"@, text_value(self.keytype));
        if self.ds is Some {
            lemma_texts_whole(self.ds->0);
        }
        lemma_whole_member(m0, "dnskey"@, text_value(self.dnskey));
        lemma_whole_member(m1, "ds"@, texts_value(self.ds));
        lemma_whole_member(m2, "flags"@, short_value(self.keyflags));
        lemma_whole_member(m3, "keytype"@, text_value(self.keytype));
        lemma_whole_member(m4, "managed"@, flag_value(self.managed));
    }

    /// The array of a list of keys can always be written as text.
    pub proof fn lemma_list_whole(list: Seq<DNSSECKeyInfoView>)
        ensures
            Self::list_to_json(list).is_whole(),
    {
        let items = Self::list_to_json(list)->Array_0;
        assert forall|i: int| 0 <= i < items.len() implies (#[trigger] items[i]).is_whole() by {
            list[i].lemma_whole();
        }
    }

    /// Writing a list of keys and reading the result gives the list back.
    pub proof fn lemma_list_round_trip(list: Seq<DNSSECKeyInfoView>)
        ensures
            Self::list_from_json(Self::list_to_json(list)) == Some(list),
    {
        let items = Self::list_to_json(list)->Array_0;
        assert forall|i: int| 0 <= i < items.len() implies Self::from_json(#[trigger] items[i])
            == Some(list[i]) by {
            list[i].lemma_round_trip();
        }
        assert(Self::list_from_json(Self::list_to_json(list))->0 =~= list);
    }

    /// Reading a document and writing the key again leaves out every member
    /// that the document lacked or held as `null`.
    pub proof fn lemma_omissions_are_kept(json: JsonView, key: Seq<char>)
        requires
            Self::from_json(json) is Some,
            json.lacks(key),
        ensures
            Self::from_json(json)->0.to_json().field(key) is None,
    {
        lemma_key_names_differ();
        Self::from_json(json)->0.lemma_field(key);
    }
}

impl Default for DNSSECKeyInfo {
    fn default() -> (key: DNSSECKeyInfo)
        ensures
            key@ == DNSSECKeyInfoView::empty(),
    {
        DNSSECKeyInfo { dnskey: None, ds: None, keyflags: None, keytype: None, managed: None }
    }
}

impl DNSSECKeyInfo {
    /// The JSON object that stands for this key.
    pub fn to_json(&self) -> (json: Json)
        ensures
            json@ == self@.to_json(),
    {
        let mut members: Vec<Member> = Vec::new();
        assert(members.deep_view() =~= Seq::empty());
        put_text(&mut members, "dnskey", &self.dnskey);
        put_texts(&mut members, "ds", &self.ds);
        put_u16(&mut members, "flags", self.keyflags);
        put_text(&mut members, "keytype", &self.keytype);
        put_bool(&mut members, "managed", self.managed);
        proof {
            lemma_object_view(members);
        }
        Json::Object(members)
    }

    /// The key that a JSON document stands for.
    pub fn from_json(json: &Json) -> (decoded: Option<DNSSECKeyInfo>)
        ensures
            decoded.deep_view() == DNSSECKeyInfoView::from_json(json@),
    {
        if !json.is_object() {
            return None;
        }
        let dnskey = json.optional_text("dnskey")?;
        let ds = json.optional_texts("ds")?;
        let keyflags = json.optional_u16("flags")?;
        let keytype = json.optional_text("keytype")?;
        let managed = json.optional_bool("managed")?;
        Some(DNSSECKeyInfo { dnskey, ds, keyflags, keytype, managed })
    }

    /// The JSON array that stands for a list of keys.
    pub fn list_to_json(list: &Vec<DNSSECKeyInfo>) -> (json: Json)
        ensures
            json@ == DNSSECKeyInfoView::list_to_json(list.deep_view()),
    {
        let mut items: Vec<Json> = Vec::new();
        let mut i: usize = 0;
        while i < list.len()
            invariant
                i <= list.len(),
                items.len() == i,
                forall|k: int| 0 <= k < i ==> items[k]@ == list[k]@.to_json(),
            decreases list.len() - i,
        {
            items.push(list[i].to_json());
            i += 1;
        }
        proof {
            lemma_array_view(items);
            assert(items.deep_view() =~= DNSSECKeyInfoView::list_to_json(
                list.deep_view(),
            )->Array_0);
        }
        Json::Array(items)
    }

    /// The list of keys that a JSON document stands for.
    pub fn list_from_json(json: &Json) -> (decoded: Option<Vec<DNSSECKeyInfo>>)
        ensures
            decoded.deep_view() == DNSSECKeyInfoView::list_from_json(json@),
    {
        match json {
            Json::Array(items) => {
                let ghost all = json@->Array_0;
                let mut list: Vec<DNSSECKeyInfo> = Vec::new();
                let mut i: usize = 0;
                while i < items.len()
                    invariant
                        i <= items.len(),
                        list.len() == i,
                        json@ == JsonView::Array(all),
                        all.len() == items.len(),
                        forall|k: int| 0 <= k < items.len() ==> all[k] == items[k]@,
                        forall|k: int|
                            0 <= k < i ==> DNSSECKeyInfoView::from_json(all[k]) == Some(list[k]@),
                    decreases items.len() - i,
                {
                    match DNSSECKeyInfo::from_json(&items[i]) {
                        Some(key) => {
                            list.push(key);
                        },
                        None => {
                            assert(DNSSECKeyInfoView::from_json(all[i as int]) is None);
                            return None;
                        },
                    }
                    i += 1;
                }
                assert(list.deep_view() =~= DNSSECKeyInfoView::list_from_json(json@)->0);
                Some(list)
            },
            _ => None,
        }
    }
}

/// A domain. Its name identifies it; every other field may be without a
/// value, and is then not written.
#[derive(Debug, Clone, PartialEq, Eq)]
pub struct Domain {
    pub created: Option<String>,
    pub keys: Option<Vec<DNSSECKeyInfo>>,
    pub minimum_ttl: Option<u16>,
    pub name: String,
    pub published: Option<String>,
    pub touched: Option<String>,
    pub zonefile: Option<String>,
}

pub type DomainList = Vec<Domain>;

/// The mathematical value of a [`Domain`].
pub ghost struct DomainView {
    pub created: Option<Seq<char>>,
    pub keys: Option<Seq<DNSSECKeyInfoView>>,
    pub minimum_ttl: Option<u16>,
    pub name: Seq<char>,
    pub published: Option<Seq<char>>,
    pub touched: Option<Seq<char>>,
    pub zonefile: Option<Seq<char>>,
}

impl DeepView for Domain {
    type V = DomainView;

    open spec fn deep_view(&self) -> DomainView {
        DomainView {
            created: self.created.deep_view(),
            keys: self.keys.deep_view(),
            minimum_ttl: self.minimum_ttl,
            name: self.name@,
            published: self.published.deep_view(),
            touched: self.touched.deep_view(),
            zonefile: self.zonefile.deep_view(),
        }
    }
}

impl View for Domain {
    type V = DomainView;

    open spec fn view(&self) -> DomainView {
        self.deep_view()
    }
}

/// The names of the fields of a domain differ in their length or in their
/// first letter.
proof fn lemma_domain_names_differ()
    ensures
        "created"@.len() == 7 && "created"@[0] == 'c',
        "keys"@.len() == 4 && "keys"@[0] == 'k',
        "minimum_ttl"@.len() == 11,
        "name"@.len() == 4 && "name"@[0] == 'n',
        "published"@.len() == 9,
        "touched"@.len() == 7 && "touched"@[0] == 't',
        "zonefile"@.len() == 8,
{
    reveal_strlit("created");
    reveal_strlit("keys");
    reveal_strlit("minimum_ttl");
    reveal_strlit("name");
    reveal_strlit("published");
    reveal_strlit("touched");
    reveal_strlit("zonefile");
}

/// An optional list of keys as an optional array of objects.
pub open spec fn keys_value(field: Option<Seq<DNSSECKeyInfoView>>) -> Option<JsonView> {
    match field {
        Some(list) => Some(DNSSECKeyInfoView::list_to_json(list)),
        None => None,
    }
}

impl DomainView {
    /// The domain without a name, of which no field holds a value.
    pub open spec fn empty() -> DomainView {
        DomainView {
            created: None,
            keys: None,
            minimum_ttl: None,
            name: Seq::empty(),
            published: None,
            touched: None,
            zonefile: None,
        }
    }

    /// The members of the object that stands for this domain: the name, and
    /// one for each other field that holds a value, in the order of the
    /// fields.
    pub open spec fn members(self) -> Seq<(Seq<char>, JsonView)> {
        Seq::empty() + member("created"@, text_value(self.created)) + member(
            "keys"@,
            keys_value(self.keys),
        ) + member("minimum_ttl"@, short_value(self.minimum_ttl)) + member(
            "name"@,
            Some(JsonView::String(self.name)),
        ) + member("published"@, text_value(self.published)) + member(
            "touched"@,
            text_value(self.touched),
        ) + member("zonefile"@, text_value(self.zonefile))
    }

    /// The JSON object that stands for this domain.
    pub open spec fn to_json(self) -> JsonView {
        JsonView::Object(self.members())
    }

    /// Whether `key` names a field of this domain that holds a value.
    pub open spec fn holds(self, key: Seq<char>) -> bool {
        ||| key == "created"@ && self.created is Some
        ||| key == "keys"@ && self.keys is Some
        ||| key == "minimum_ttl"@ && self.minimum_ttl is Some
        ||| key == "name"@
        ||| key == "published"@ && self.published is Some
        ||| key == "touched"@ && self.touched is Some
        ||| key == "zonefile"@ && self.zonefile is Some
    }

    /// The member `keys` of a document read as an optional list of keys:
    /// `Some(None)` where it is missing or `null`, `None` where it is there
    /// and does not stand for a list of keys.
    pub open spec fn keys_of(json: JsonView) -> Option<Option<Seq<DNSSECKeyInfoView>>> {
        if json.lacks("keys"@) {
            Some(None)
        } else {
            match DNSSECKeyInfoView::list_from_json(json.field("keys"@)->0) {
                Some(list) => Some(Some(list)),
                None => None,
            }
        }
    }

    /// The domain that a JSON document stands for: the document is an
    /// object with a member `name` that is a string, each other field is
    /// read from the member of its name, a member that is missing or `null`
    /// leaves its field without a value, and members of other names are
    /// passed over. `None` where the document is no object, has no name or
    /// a member does not have the type of its field.
    pub open spec fn from_json(json: JsonView) -> Option<DomainView> {
        if json is Object && json.optional_text("created"@) is Some && Self::keys_of(json) is Some
            && json.optional_u16("minimum_ttl"@) is Some && json.text("name"@) is Some
            && json.optional_text("published"@) is Some && json.optional_text("touched"@)
            is Some && json.optional_text("zonefile"@) is Some {
            Some(
                DomainView {
                    created: json.optional_text("created"@)->0,
                    keys: Self::keys_of(json)->0,
                    minimum_ttl: json.optional_u16("minimum_ttl"@)->0,
                    name: json.text("name"@)->0,
                    published: json.optional_text("published"@)->0,
                    touched: json.optional_text("touched"@)->0,
                    zonefile: json.optional_text("zonefile"@)->0,
                },
            )
        } else {
            None
        }
    }

    /// The list of domains that a JSON document stands for: the document is
    /// an array and each of its items stands for a domain.
    pub open spec fn list_from_json(json: JsonView) -> Option<Seq<DomainView>> {
        match json {
            JsonView::Array(items) => if forall|i: int|
                0 <= i < items.len() ==> Self::from_json(#[trigger] items[i]) is Some {
                Some(Seq::new(items.len(), |i: int| Self::from_json(items[i])->0))
            } else {
                None
            },
            _ => None,
        }
    }

    /// What the object of this domain holds under a name: the value of the
    /// field of that name.
    pub proof fn lemma_field(self, key: Seq<char>)
        ensures
            self.to_json().field(key) == if key == "created"@ {
                text_value(self.created)
            } else if key == "keys"@ {
                keys_value(self.keys)
            } else if key == "minimum_ttl"@ {
                short_value(self.minimum_ttl)
            } else if key == "name"@ {
                Some(JsonView::String(self.name))
            } else if key == "published"@ {
                text_value(self.published)
            } else if key == "touched"@ {
                text_value(self.touched)
            } else if key == "zonefile"@ {
                text_value(self.zonefile)
            } else {
                None
            },
    {
        lemma_domain_names_differ();
        let m0 = Seq::<(Seq<char>, JsonView)>::empty();
        let m1 = m0 + member("created"@, text_value(self.created));
        let m2 = m1 + member("keys"@, keys_value(self.keys));
        let m3 = m2 + member("minimum_ttl"@, short_value(self.minimum_ttl));
        let m4 = m3 + member("name"@, Some(JsonView::String(self.name)));
        let m5 = m4 + member("published"@, text_value(self.published));
        let m6 = m5 + member("touched"@, text_value(self.touched));
        lemma_lookup_member(m0, "created"@, text_value(self.created), key);
        lemma_lookup_member(m1, "keys"@, keys_value(self.keys), key);
        lemma_lookup_member(m2, "minimum_ttl"@, short_value(self.minimum_ttl), key);
        lemma_lookup_member(m3, "name"@, Some(JsonView::String(self.name)), key);
        lemma_lookup_member(m4, "published"@, text_value(self.published), key);
        lemma_lookup_member(m5, "touched"@, text_value(self.touched), key);
        lemma_lookup_member(m6, "zonefile"@, text_value(self.zonefile), key);
    }

    /// A field without a value is left out when the domain is written, and
    /// no member is ever `null`.
    pub proof fn lemma_absent_fields_are_omitted(self, key: Seq<char>)
        ensures
            self.to_json().field(key) is Some <==> self.holds(key),
            self.to_json().field(key) != Some(JsonView::Null),
    {
        lemma_domain_names_differ();
        self.lemma_field(key);
    }

    /// Writing a domain and reading the result gives the domain back.
    pub proof fn lemma_round_trip(self)
        ensures
            Self::from_json(self.to_json()) == Some(self),
    {
        lemma_domain_names_differ();
        self.lemma_field("created"@);
        self.lemma_field("keys"@);
        self.lemma_field("minimum_ttl"@);
        self.lemma_field("name"@);
        self.lemma_field("published"@);
        self.lemma_field("touched"@);
        self.lemma_field("zonefile"@);
        if self.keys is Some {
            DNSSECKeyInfoView::lemma_list_round_trip(self.keys->0);
        }
    }

    /// The object of a domain holds no number that is not an `Unsigned`: it
    /// can always be written as text.
    pub proof fn lemma_whole(self)
        ensures
            self.to_json().is_whole(),
    {
        let m0 = Seq::<(Seq<char>, JsonView)>::empty();
        let m1 = m0 + member("created"@, text_value(self.created));
        let m2 = m1 + member("keys"@, keys_value(self.keys));
        let m3 = m2 + member("minimum_ttl"@, short_value(self.minimum_ttl));
        let m4 = m3 + member("name"@, Some(JsonView::String(self.name)));
        let m5 = m4 + member("published"@, text_value(self.published));
        let m6 = m5 + member("touched"@, text_value(self.touched));
        if self.keys is Some {
            DNSSECKeyInfoView::lemma_list_whole(self.keys->0);
        }
        lemma_whole_member(m0, "created"@, text_value(self.created));
        lemma_whole_member(m1, "keys"@, keys_value(self.keys));
        lemma_whole_member(m2, "minimum_ttl"@, short_value(self.minimum_ttl));
        lemma_whole_member(m3, "name"@, Some(JsonView::String(self.name)));
        lemma_whole_member(m4, "published"@, text_value(self.published));
        lemma_whole_member(m5, "touched"@, text_value(self.touched));
        lemma_whole_member(m6, "zonefile"@, text_value(self.zonefile));
    }

    /// Reading a document and writing the domain again leaves out every
    /// member that the document lacked or held as `null`.
    pub proof fn lemma_omissions_are_kept(json: JsonView, key: Seq<char>)
        requires
            Self::from_json(json) is Some,
            json.lacks(key),
        ensures
            Self::from_json(json)->0.to_json().field(key) is None,
    {
        lemma_domain_names_differ();
        Self::from_json(json)->0.lemma_field(key);
    }
}

impl Default for Domain {
    fn default() -> (domain: Domain)
        ensures
            domain@ == DomainView::empty(),
    {
        Domain {
            created: None,
            keys: None,
            minimum_ttl: None,
            name: String::new(),
            published: None,
            touched: None,
            zonefile: None,
        }
    }
}

impl Domain {
    /// The JSON object that stands for this domain.
    pub fn to_json(&self) -> (json: Json)
        ensures
            json@ == self@.to_json(),
    {
        let mut members: Vec<Member> = Vec::new();
        assert(members.deep_view() =~= Seq::empty());
        put_text(&mut members, "created", &self.created);
        match &self.keys {
            Some(list) => put(&mut members, "keys", DNSSECKeyInfo::list_to_json(list)),
            None => {
                assert(members.deep_view() + member("keys"@, None) =~= members.deep_view());
            },
        }
        put_u16(&mut members, "minimum_ttl", self.minimum_ttl);
        put(&mut members, "name", Json::String(self.name.clone()));
        put_text(&mut members, "published", &self.published);
        put_text(&mut members, "touched", &self.touched);
        put_text(&mut members, "zonefile", &self.zonefile);
        proof {
            lemma_object_view(members);
        }
        Json::Object(members)
    }

    /// The domain that a JSON document stands for.
    pub fn from_json(json: &Json) -> (decoded: Option<Domain>)
        ensures
            decoded.deep_view() == DomainView::from_json(json@),
    {
        if !json.is_object() {
            return None;
        }
        let created = json.optional_text("created")?;
        let keys = match json.get("keys") {
            None => None,
            Some(Json::Null) => None,
            Some(value) => Some(DNSSECKeyInfo::list_from_json(value)?),
        };
        let minimum_ttl = json.optional_u16("minimum_ttl")?;
        let name = json.text("name")?;
        let published = json.optional_text("published")?;
        let touched = json.optional_text("touched")?;
        let zonefile = json.optional_text("zonefile")?;
        Some(Domain { created, keys, minimum_ttl, name, published, touched, zonefile })
    }

    /// The list of domains that a JSON document stands for.
    pub fn list_from_json(json: &Json) -> (decoded: Option<Vec<Domain>>)
        ensures
            decoded.deep_view() == DomainView::list_from_json(json@),
    {
        match json {
            Json::Array(items) => {
                let ghost all = json@->Array_0;
                let mut list: Vec<Domain> = Vec::new();
                let mut i: usize = 0;
                while i < items.len()
                    invariant
                        i <= items.len(),
                        list.len() == i,
                        json@ == JsonView::Array(all),
                        all.len() == items.len(),
                        forall|k: int| 0 <= k < items.len() ==> all[k] == items[k]@,
                        forall|k: int| 0 <= k < i ==> DomainView::from_json(all[k]) == Some(list[k]@),
                    decreases items.len() - i,
                {
                    match Domain::from_json(&items[i]) {
                        Some(domain) => {
                            list.push(domain);
                        },
                        None => {
                            assert(DomainView::from_json(all[i as int]) is None);
                            return None;
                        },
                    }
                    i += 1;
                }
                assert(list.deep_view() =~= DomainView::list_from_json(json@)->0);
                Some(list)
            },
            _ => None,
        }
    }
}

} // verus!

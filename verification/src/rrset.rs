//! Resource record sets: all records of one type at one name.

use crate::fields::{
    lemma_lookup_member, lemma_texts_read_back, lemma_texts_whole, lemma_whole_member, member,
    put_text, put_texts, put_u64, text_value, texts_array, texts_value, unsigned_value,
};
use crate::json::{lemma_array_view, lemma_object_view, Json, JsonView, Member};
use vstd::prelude::*;

verus! {

/// A resource record set, identified on the server by its domain, subname
/// and type. A field that is `None` is not written when the set is sent, so
/// that a partial update touches only what the caller has set.
#[derive(Debug, Clone, PartialEq, Eq)]
pub struct ResourceRecordSet {
    pub created: Option<String>,
    pub domain: Option<String>,
    pub subname: Option<String>,
    pub name: Option<String>,
    pub rrset_type: Option<String>,
    pub records: Option<Vec<String>>,
    pub ttl: Option<u64>,
    pub touched: Option<String>,
}

pub type ResourceRecordSetList = Vec<ResourceRecordSet>;

/// The mathematical value of a [`ResourceRecordSet`].
pub ghost struct ResourceRecordSetView {
    pub created: Option<Seq<char>>,
    pub domain: Option<Seq<char>>,
    pub subname: Option<Seq<char>>,
    pub name: Option<Seq<char>>,
    pub rrset_type: Option<Seq<char>>,
    pub records: Option<Seq<Seq<char>>>,
    pub ttl: Option<u64>,
    pub touched: Option<Seq<char>>,
}

impl DeepView for ResourceRecordSet {
    type V = ResourceRecordSetView;

    open spec fn deep_view(&self) -> ResourceRecordSetView {
        ResourceRecordSetView {
            created: self.created.deep_view(),
            domain: self.domain.deep_view(),
            subname: self.subname.deep_view(),
            name: self.name.deep_view(),
            rrset_type: self.rrset_type.deep_view(),
            records: self.records.deep_view(),
            ttl: self.ttl,
            touched: self.touched.deep_view(),
        }
    }
}

impl View for ResourceRecordSet {
    type V = ResourceRecordSetView;

    open spec fn view(&self) -> ResourceRecordSetView {
        self.deep_view()
    }
}

/// The names of the fields differ in their length or in their first letter.
proof fn lemma_names_differ()
    ensures
        "created"@.len() == 7 && "created"@[0] == 'c',
        "domain"@.len() == 6,
        "subname"@.len() == 7 && "subname"@[0] == 's',
        "name"@.len() == 4 && "name"@[0] == 'n',
        "type"@.len() == 4 && "type"@[0] == 't',
        "records"@.len() == 7 && "records"@[0] == 'r',
        "ttl"@.len() == 3,
        "touched"@.len() == 7 && "touched"@[0] == 't',
{
    reveal_strlit("created");
    reveal_strlit("domain");
    reveal_strlit("subname");
    reveal_strlit("name");
    reveal_strlit("type");
    reveal_strlit("records");
    reveal_strlit("ttl");
    reveal_strlit("touched");
}

impl ResourceRecordSetView {
    /// The set in which no field holds a value.
    pub open spec fn empty() -> ResourceRecordSetView {
        ResourceRecordSetView {
            created: None,
            domain: None,
            subname: None,
            name: None,
            rrset_type: None,
            records: None,
            ttl: None,
            touched: None,
        }
    }

    /// The members of the object that stands for this set: one for each
    /// field that holds a value, in the order of the fields.
    pub open spec fn members(self) -> Seq<(Seq<char>, JsonView)> {
        Seq::empty() + member("created"@, text_value(self.created)) + member(
            "domain"@,
            text_value(self.domain),
        ) + member("subname"@, text_value(self.subname)) + member("name"@, text_value(self.name))
            + member("type"@, text_value(self.rrset_type)) + member(
            "records"@,
            texts_value(self.records),
        ) + member("ttl"@, unsigned_value(self.ttl)) + member("touched"@, text_value(self.touched))
    }

    /// The JSON object that stands for this set.
    pub open spec fn to_json(self) -> JsonView {
        JsonView::Object(self.members())
    }

    /// Whether `key` names a field of this set that holds a value.
    pub open spec fn holds(self, key: Seq<char>) -> bool {
        ||| key == "created"@ && self.created is Some
        ||| key == "domain"@ && self.domain is Some
        ||| key == "subname"@ && self.subname is Some
        ||| key == "name"@ && self.name is Some
        ||| key == "type"@ && self.rrset_type is Some
        ||| key == "records"@ && self.records is Some
        ||| key == "ttl"@ && self.ttl is Some
        ||| key == "touched"@ && self.touched is Some
    }

    /// The set that a JSON document stands for: the document is an object,
    /// each field is read from the member of its name, a member that is
    /// missing or `null` leaves its field without a value, and members of
    /// other names are passed over. `None` where the document is no object
    /// or a member does not have the type of its field.
    pub open spec fn from_json(json: JsonView) -> Option<ResourceRecordSetView> {
        if json is Object && json.optional_text("created"@) is Some && json.optional_text(
            "domain"@,
        ) is Some && json.optional_text("subname"@) is Some && json.optional_text("name"@) is Some
            && json.optional_text("type"@) is Some && json.optional_texts("records"@) is Some
            && json.optional_u64("ttl"@) is Some && json.optional_text("touched"@) is Some {
            Some(
                ResourceRecordSetView {
                    created: json.optional_text("created"@)->0,
                    domain: json.optional_text("domain"@)->0,
                    subname: json.optional_text("subname"@)->0,
                    name: json.optional_text("name"@)->0,
                    rrset_type: json.optional_text("type"@)->0,
                    records: json.optional_texts("records"@)->0,
                    ttl: json.optional_u64("ttl"@)->0,
                    touched: json.optional_text("touched"@)->0,
                },
            )
        } else {
            None
        }
    }

    /// The JSON array that stands for a list of sets.
    pub open spec fn list_to_json(list: Seq<ResourceRecordSetView>) -> JsonView {
        JsonView::Array(Seq::new(list.len(), |i: int| list[i].to_json()))
    }

    /// The list of sets that a JSON document stands for: the document is an
    /// array and each of its items stands for a set.
    pub open spec fn list_from_json(json: JsonView) -> Option<Seq<ResourceRecordSetView>> {
        match json {
            JsonView::Array(items) => if forall|i: int|
                0 <= i < items.len() ==> Self::from_json(#[trigger] items[i]) is Some {
                Some(Seq::new(items.len(), |i: int| Self::from_json(items[i])->0))
            } else {
                None
            },
            _ => None,
        }
    }

    /// What the object of this set holds under a name: the value of the
    /// field of that name.
    pub proof fn lemma_field(self, key: Seq<char>)
        ensures
            self.to_json().field(key) == if key == "created"@ {
                text_value(self.created)
            } else if key == "domain"@ {
                text_value(self.domain)
            } else if key == "subname"@ {
                text_value(self.subname)
            } else if key == "name"@ {
                text_value(self.name)
            } else if key == "type"@ {
                text_value(self.rrset_type)
            } else if key == "records"@ {
                texts_value(self.records)
            } else if key == "ttl"@ {
                unsigned_value(self.ttl)
            } else if key == "touched"@ {
                text_value(self.touched)
            } else {
                None
            },
    {
        lemma_names_differ();
        let m0 = Seq::<(Seq<char>, JsonView)>::empty();
        let m1 = m0 + member("created"@, text_value(self.created));
        let m2 = m1 + member("domain"@, text_value(self.domain));
        let m3 = m2 + member("subname"@, text_value(self.subname));
        let m4 = m3 + member("name"@, text_value(self.name));
        let m5 = m4 + member("type"@, text_value(self.rrset_type));
        let m6 = m5 + member("records"@, texts_value(self.records));
        let m7 = m6 + member("ttl"@, unsigned_value(self.ttl));
        lemma_lookup_member(m0, "created"@, text_value(self.created), key);
        lemma_lookup_member(m1, "domain"@, text_value(self.domain), key);
        lemma_lookup_member(m2, "subname"@, text_value(self.subname), key);
        lemma_lookup_member(m3, "name"@, text_value(self.name), key);
        lemma_lookup_member(m4, "type"@, text_value(self.rrset_type), key);
        lemma_lookup_member(m5, "records"@, texts_value(self.records), key);
        lemma_lookup_member(m6, "ttl"@, unsigned_value(self.ttl), key);
        lemma_lookup_member(m7, "touched"@, text_value(self.touched), key);
    }

    /// A field without a value is left out when the set is written, and no
    /// member is ever `null`: the object holds a name exactly where the
    /// field of that name holds a value.
    pub proof fn lemma_absent_fields_are_omitted(self, key: Seq<char>)
        ensures
            self.to_json().field(key) is Some <==> self.holds(key),
            self.to_json().field(key) != Some(JsonView::Null),
    {
        lemma_names_differ();
        self.lemma_field(key);
    }

    /// Writing a set and reading the result gives the set back.
    pub proof fn lemma_round_trip(self)
        ensures
            Self::from_json(self.to_json()) == Some(self),
    {
        lemma_names_differ();
        self.lemma_field("created"@);
        self.lemma_field("domain"@);
        self.lemma_field("subname"@);
        self.lemma_field("name"@);
        self.lemma_field("type"@);
        self.lemma_field("records"@);
        self.lemma_field("ttl"@);
        self.lemma_field("touched"@);
        if self.records is Some {
            lemma_texts_read_back(self.records->0);
        }
    }

    /// The object of a set holds no number but the time to live, which is
    /// an `Unsigned`: it can always be written as text.
    pub proof fn lemma_whole(self)
        ensures
            self.to_json().is_whole(),
    {
        let m0 = Seq::<(Seq<char>, JsonView)>::empty();
        let m1 = m0 + member("created"@, text_value(self.created));
        let m2 = m1 + member("domain"@, text_value(self.domain));
        let m3 = m2 + member("subname"@, text_value(self.subname));
        let m4 = m3 + member("name"@, text_value(self.name));
        let m5 = m4 + member("type"@, text_value(self.rrset_type));
        let m6 = m5 + member("records"@, texts_value(self.records));
        let m7 = m6 + member("ttl"@, unsigned_value(self.ttl));
        if self.records is Some {
            lemma_texts_whole(self.records->0);
        }
        lemma_whole_member(m0, "created"@, text_value(self.created));
        lemma_whole_member(m1, "domain"@, text_value(self.domain));
        lemma_whole_member(m2, "subname"@, text_value(self.subname));
        lemma_whole_member(m3, "name"@, text_value(self.name));
        lemma_whole_member(m4, "type"@, text_value(self.rrset_type));
        lemma_whole_member(m5, "records"@, texts_value(self.records));
        lemma_whole_member(m6, "ttl"@, unsigned_value(self.ttl));
        lemma_whole_member(m7, "touched"@, text_value(self.touched));
    }

    /// The array of a list of sets can always be written as text.
    pub proof fn lemma_list_whole(list: Seq<ResourceRecordSetView>)
        ensures
            Self::list_to_json(list).is_whole(),
    {
        let items = Self::list_to_json(list)->Array_0;
        assert forall|i: int| 0 <= i < items.len() implies (#[trigger] items[i]).is_whole() by {
            list[i].lemma_whole();
        }
    }

    /// Reading a document and writing the set again leaves out every member
    /// that the document lacked or held as `null`.
    pub proof fn lemma_omissions_are_kept(json: JsonView, key: Seq<char>)
        requires
            Self::from_json(json) is Some,
            json.lacks(key),
        ensures
            Self::from_json(json)->0.to_json().field(key) is None,
    {
        lemma_names_differ();
        Self::from_json(json)->0.lemma_field(key);
    }

    /// A set in which only the records and the time to live are set is
    /// written as an object of exactly these two members.
    pub proof fn lemma_partial_update(records: Seq<Seq<char>>, ttl: u64)
        ensures
            (ResourceRecordSetView {
                records: Some(records),
                ttl: Some(ttl),
                ..Self::empty()
            }).to_json() == JsonView::Object(
                seq![("records"@, texts_array(records)), ("ttl"@, JsonView::Unsigned(ttl))],
            ),
    {
        let patch = ResourceRecordSetView { records: Some(records), ttl: Some(ttl), ..Self::empty() };
        assert(patch.members() =~= seq![
            ("records"@, texts_array(records)),
            ("ttl"@, JsonView::Unsigned(ttl)),
        ]);
    }
}

impl Default for ResourceRecordSet {
    fn default() -> (set: ResourceRecordSet)
        ensures
            set@ == ResourceRecordSetView::empty(),
    {
        ResourceRecordSet {
            created: None,
            domain: None,
            subname: None,
            name: None,
            rrset_type: None,
            records: None,
            ttl: None,
            touched: None,
        }
    }
}

impl ResourceRecordSet {
    /// The JSON object that stands for this set.
    pub fn to_json(&self) -> (json: Json)
        ensures
            json@ == self@.to_json(),
    {
        let mut members: Vec<Member> = Vec::new();
        assert(members.deep_view() =~= Seq::empty());
        put_text(&mut members, "created", &self.created);
        put_text(&mut members, "domain", &self.domain);
        put_text(&mut members, "subname", &self.subname);
        put_text(&mut members, "name", &self.name);
        put_text(&mut members, "type", &self.rrset_type);
        put_texts(&mut members, "records", &self.records);
        put_u64(&mut members, "ttl", self.ttl);
        put_text(&mut members, "touched", &self.touched);
        proof {
            lemma_object_view(members);
        }
        Json::Object(members)
    }

    /// The set that a JSON document stands for.
    pub fn from_json(json: &Json) -> (decoded: Option<ResourceRecordSet>)
        ensures
            decoded.deep_view() == ResourceRecordSetView::from_json(json@),
    {
        if !json.is_object() {
            return None;
        }
        let created = json.optional_text("created")?;
        let domain = json.optional_text("domain")?;
        let subname = json.optional_text("subname")?;
        let name = json.optional_text("name")?;
        let rrset_type = json.optional_text("type")?;
        let records = json.optional_texts("records")?;
        let ttl = json.optional_u64("ttl")?;
        let touched = json.optional_text("touched")?;
        Some(ResourceRecordSet { created, domain, subname, name, rrset_type, records, ttl, touched })
    }

    /// The JSON array that stands for a list of sets.
    pub fn list_to_json(list: &Vec<ResourceRecordSet>) -> (json: Json)
        ensures
            json@ == ResourceRecordSetView::list_to_json(list.deep_view()),
    {
        let mut items: Vec<Json> = Vec::new();
        let mut i: usize = 0;
        while i < list.len()
            invariant
                i <= list.len(),
                items.len() == i,
                forall|k: int| 0 <= k < i ==> items[k]@ == list[k]@.to_json(),
            decreases list.len() - i,
        {
            items.push(list[i].to_json());
            i += 1;
        }
        proof {
            lemma_array_view(items);
            assert(items.deep_view() =~= ResourceRecordSetView::list_to_json(
                list.deep_view(),
            )->Array_0);
        }
        Json::Array(items)
    }

    /// The list of sets that a JSON document stands for.
    pub fn list_from_json(json: &Json) -> (decoded: Option<Vec<ResourceRecordSet>>)
        ensures
            decoded.deep_view() == ResourceRecordSetView::list_from_json(json@),
    {
        match json {
            Json::Array(items) => {
                let ghost all = json@->Array_0;
                let mut list: Vec<ResourceRecordSet> = Vec::new();
                let mut i: usize = 0;
                while i < items.len()
                    invariant
                        i <= items.len(),
                        list.len() == i,
                        json@ == JsonView::Array(all),
                        all.len() == items.len(),
                        forall|k: int| 0 <= k < items.len() ==> all[k] == items[k]@,
                        forall|k: int|
                            0 <= k < i ==> ResourceRecordSetView::from_json(all[k]) == Some(
                                list[k]@,
                            ),
                    decreases items.len() - i,
                {
                    match ResourceRecordSet::from_json(&items[i]) {
                        Some(set) => {
                            list.push(set);
                        },
                        None => {
                            assert(ResourceRecordSetView::from_json(all[i as int]) is None);
                            return None;
                        },
                    }
                    i += 1;
                }
                assert(list.deep_view() =~= ResourceRecordSetView::list_from_json(json@)->0);
                Some(list)
            },
            _ => None,
        }
    }
}

} // verus!

//! What the server tells about the account that a token belongs to.

use crate::fields::{lemma_lookup_member, member, put};
use crate::json::{lemma_object_view, Json, JsonView, Member};
use vstd::prelude::*;

verus! {

/// The account of the caller, as the server describes it.
#[derive(Debug, Clone, PartialEq, Eq)]
pub struct AccountInformation {
    pub created: String,
    pub email: String,
    pub id: String,
    pub limit_domains: u64,
    pub outreach_preference: bool,
}

/// The mathematical value of an [`AccountInformation`].
pub ghost struct AccountInformationView {
    pub created: Seq<char>,
    pub email: Seq<char>,
    pub id: Seq<char>,
    pub limit_domains: u64,
    pub outreach_preference: bool,
}

impl DeepView for AccountInformation {
    type V = AccountInformationView;

    open spec fn deep_view(&self) -> AccountInformationView {
        AccountInformationView {
            created: self.created@,
            email: self.email@,
            id: self.id@,
            limit_domains: self.limit_domains,
            outreach_preference: self.outreach_preference,
        }
    }
}

impl View for AccountInformation {
    type V = AccountInformationView;

    open spec fn view(&self) -> AccountInformationView {
        self.deep_view()
    }
}

/// The names of the fields of an account differ in their length.
proof fn lemma_account_names_differ()
    ensures
        "created"@.len() == 7,
        "email"@.len() == 5,
        "id"@.len() == 2,
        "limit_domains"@.len() == 13,
        "outreach_preference"@.len() == 19,
{
    reveal_strlit("created");
    reveal_strlit("email");
    reveal_strlit("id");
    reveal_strlit("limit_domains");
    reveal_strlit("outreach_preference");
}

impl AccountInformationView {
    /// The members of the object that stands for this account: one for each
    /// field, in the order of the fields.
    pub open spec fn members(self) -> Seq<(Seq<char>, JsonView)> {
        Seq::empty() + member("created"@, Some(JsonView::String(self.created))) + member(
            "email"@,
            Some(JsonView::String(self.email)),
        ) + member("id"@, Some(JsonView::String(self.id))) + member(
            "limit_domains"@,
            Some(JsonView::Unsigned(self.limit_domains)),
        ) + member("outreach_preference"@, Some(JsonView::Bool(self.outreach_preference)))
    }

    /// The JSON object that stands for this account.
    pub open spec fn to_json(self) -> JsonView {
        JsonView::Object(self.members())
    }

    /// The account that a JSON document stands for: the document is an
    /// object that holds every field under its name, with the type of the
    /// field. Members of other names are passed over.
    pub open spec fn from_json(json: JsonView) -> Option<AccountInformationView> {
        if json is Object && json.text("created"@) is Some && json.text("email"@) is Some
            && json.text("id"@) is Some && json.unsigned("limit_domains"@) is Some && json.flag(
            "outreach_preference"@,
        ) is Some {
            Some(
                AccountInformationView {
                    created: json.text("created"@)->0,
                    email: json.text("email"@)->0,
                    id: json.text("id"@)->0,
                    limit_domains: json.unsigned("limit_domains"@)->0,
                    outreach_preference: json.flag("outreach_preference"@)->0,
                },
            )
        } else {
            None
        }
    }

    /// What the object of this account holds under a name: the value of the
    /// field of that name.
    pub proof fn lemma_field(self, key: Seq<char>)
        ensures
            self.to_json().field(key) == if key == "created"@ {
                Some(JsonView::String(self.created))
            } else if key == "email"@ {
                Some(JsonView::String(self.email))
            } else if key == "id"@ {
                Some(JsonView::String(self.id))
            } else if key == "limit_domains"@ {
                Some(JsonView::Unsigned(self.limit_domains))
            } else if key == "outreach_preference"@ {
                Some(JsonView::Bool(self.outreach_preference))
            } else {
                None
            },
    {
        lemma_account_names_differ();
        let m0 = Seq::<(Seq<char>, JsonView)>::empty();
        let m1 = m0 + member("created"@, Some(JsonView::String(self.created)));
        let m2 = m1 + member("email"@, Some(JsonView::String(self.email)));
        let m3 = m2 + member("id"@, Some(JsonView::String(self.id)));
        let m4 = m3 + member("limit_domains"@, Some(JsonView::Unsigned(self.limit_domains)));
        lemma_lookup_member(m0, "created"@, Some(JsonView::String(self.created)), key);
        lemma_lookup_member(m1, "email"@, Some(JsonView::String(self.email)), key);
        lemma_lookup_member(m2, "id"@, Some(JsonView::String(self.id)), key);
        lemma_lookup_member(
            m3,
            "limit_domains"@,
            Some(JsonView::Unsigned(self.limit_domains)),
            key,
        );
        lemma_lookup_member(
            m4,
            "outreach_preference"@,
            Some(JsonView::Bool(self.outreach_preference)),
            key,
        );
    }

    /// Writing an account and reading the result gives the account back.
    pub proof fn lemma_round_trip(self)
        ensures
            Self::from_json(self.to_json()) == Some(self),
    {
        lemma_account_names_differ();
        self.lemma_field("created"@);
        self.lemma_field("email"@);
        self.lemma_field("id"@);
        self.lemma_field("limit_domains"@);
        self.lemma_field("outreach_preference"@);
    }
}

impl AccountInformation {
    /// The JSON object that stands for this account.
    pub fn to_json(&self) -> (json: Json)
        ensures
            json@ == self@.to_json(),
    {
        let mut members: Vec<Member> = Vec::new();
        assert(members.deep_view() =~= Seq::empty());
        put(&mut members, "created", Json::String(self.created.clone()));
        put(&mut members, "email", Json::String(self.email.clone()));
        put(&mut members, "id", Json::String(self.id.clone()));
        put(&mut members, "limit_domains", Json::Unsigned(self.limit_domains));
        put(&mut members, "outreach_preference", Json::Bool(self.outreach_preference));
        proof {
            lemma_object_view(members);
        }
        Json::Object(members)
    }

    /// The account that a JSON document stands for.
    pub fn from_json(json: &Json) -> (decoded: Option<AccountInformation>)
        ensures
            decoded.deep_view() == AccountInformationView::from_json(json@),
    {
        if !json.is_object() {
            return None;
        }
        let created = json.text("created")?;
        let email = json.text("email")?;
        let id = json.text("id")?;
        let limit_domains = json.unsigned("limit_domains")?;
        let outreach_preference = json.flag("outreach_preference")?;
        Some(AccountInformation { created, email, id, limit_domains, outreach_preference })
    }
}

} // verus!

//! The client: the request of each operation, and the function that says
//! what the reply to it means.

use crate::account::AccountInformation;
use crate::domain::{Domain, DomainList};
use crate::error::{deep_result, DeSecError, DeSecErrorView};
use crate::header::{header_char_allowed, header_text_allowed, header_value};
use crate::http::{HttpResponse, Method, Request, RequestView};
use crate::fields::put;
use crate::json::{
    lemma_object_view, lookup, print_text, printed_json, Json, JsonView, Member,
};
use crate::reply::{
    account_outcome, domain_outcome, domains_outcome, rrset_outcome, rrsets_outcome, settle,
    settle_account, settle_domain, settle_domains, settle_rrset, settle_rrsets, settle_unit,
    settled, unit_outcome,
};
use crate::rrset::{ResourceRecordSet, ResourceRecordSetList, ResourceRecordSetView};
use crate::status::Operation;
use vstd::prelude::*;
use vstd::string::StringExecFns;

verus! {

/// The root of the API of the provider.
pub const API_URL: &'static str = "https://desec.io/api/v1";

/// The name under which the client presents itself.
pub const USER_AGENT: &'static str = "rust-desec-client";

/// The media type of every body that is sent.
pub const JSON_CONTENT_TYPE: &'static str = "application/json";

/// A client of the API: where the API is, and the token that authorizes
/// the caller. Nothing in it changes after it is made.
pub struct DeSecClient {
    api_url: String,
    token: String,
}

/// The mathematical value of a [`DeSecClient`].
pub ghost struct DeSecClientView {
    pub api_url: Seq<char>,
    pub token: Seq<char>,
}

impl View for DeSecClient {
    type V = DeSecClientView;

    closed spec fn view(&self) -> DeSecClientView {
        DeSecClientView { api_url: self.api_url@, token: self.token@ }
    }
}

/// The path of a domain.
pub open spec fn domain_path(domain: Seq<char>) -> Seq<char> {
    "/domains/"@ + domain + "/"@
}

/// The path of the zone file of a domain.
pub open spec fn zonefile_path(domain: Seq<char>) -> Seq<char> {
    "/domains/"@ + domain + "/zonefile/"@
}

/// The path of the record sets of a domain.
pub open spec fn rrsets_path(domain: Seq<char>) -> Seq<char> {
    "/domains/"@ + domain + "/rrsets/"@
}

/// The path of one record set of a domain.
pub open spec fn rrset_path(domain: Seq<char>, subname: Seq<char>, rrset_type: Seq<char>) -> Seq<
    char,
> {
    "/domains/"@ + domain + "/rrsets/"@ + subname + "/"@ + rrset_type + "/"@
}

/// The document that asks for a domain of the given name: an object whose
/// one member, `name`, is the name as a string.
pub open spec fn new_domain(domain: Seq<char>) -> JsonView {
    JsonView::Object(seq![("name"@, JsonView::String(domain))])
}

/// The record set that `create_rrset` sends.
pub open spec fn new_rrset(
    domain: Seq<char>,
    subname: Seq<char>,
    rrset_type: Seq<char>,
    records: Seq<Seq<char>>,
    ttl: u64,
) -> ResourceRecordSetView {
    ResourceRecordSetView {
        domain: Some(domain),
        subname: Some(subname),
        rrset_type: Some(rrset_type),
        records: Some(records),
        ttl: Some(ttl),
        ..ResourceRecordSetView::empty()
    }
}

impl DeSecClientView {
    /// The value of the `Authorization` header that goes with every request.
    pub open spec fn authorization(self) -> Seq<char> {
        "Token "@ + self.token
    }

    /// The headers that go with every request: who asks, and with which
    /// program.
    pub open spec fn headers(self) -> Seq<(Seq<char>, Seq<char>)> {
        seq![("Authorization"@, self.authorization()), ("User-Agent"@, USER_AGENT@)]
    }

    /// The request without a body for `path`.
    pub open spec fn plain(self, method: Method, path: Seq<char>) -> RequestView {
        RequestView { method, url: self.api_url + path, headers: self.headers(), body: None }
    }

    /// The request for `path` with the given body, which is announced as
    /// JSON.
    pub open spec fn with_body(
        self,
        method: Method,
        path: Seq<char>,
        body: Seq<char>,
    ) -> RequestView {
        RequestView {
            method,
            url: self.api_url + path,
            headers: self.headers().push(("Content-Type"@, JSON_CONTENT_TYPE@)),
            body: Some(body),
        }
    }

    /// The request for `path` whose body is `json` as `serde_json` writes
    /// it, or the failure to write it.
    pub open spec fn with_json(self, method: Method, path: Seq<char>, json: JsonView) -> Result<
        RequestView,
        DeSecErrorView,
    > {
        match printed_json(json) {
            Ok(text) => Ok(self.with_body(method, path, text)),
            Err(message) => Err(DeSecErrorView::Parser(message)),
        }
    }
}

/// A document written as text, or the failure to write it.
pub fn write_json(json: &Json) -> (outcome: Result<String, DeSecError>)
    ensures
        match outcome {
            Ok(text) => printed_json(json@) == Ok::<Seq<char>, Seq<char>>(text@),
            Err(error) => printed_json(json@) is Err && error@ == DeSecErrorView::Parser(
                printed_json(json@)->Err_0,
            ),
        },
        json@.is_whole() ==> outcome is Ok,
{
    match print_text(json) {
        Ok(text) => Ok(text),
        Err(message) => Err(DeSecError::Parser(message)),
    }
}

/// The path of what lies at `tail` under a domain.
fn path_under_domain(domain: &str, tail: &str) -> (path: String)
    ensures
        path@ == "/domains/"@ + domain@ + tail@,
{
    let mut path = "/domains/".to_owned();
    path.append(domain);
    path.append(tail);
    path
}

/// The path of one record set of a domain.
fn path_of_rrset(domain: &str, subname: &str, rrset_type: &str) -> (path: String)
    ensures
        path@ == rrset_path(domain@, subname@, rrset_type@),
{
    let mut path = path_under_domain(domain, "/rrsets/");
    path.append(subname);
    path.append("/");
    path.append(rrset_type);
    path.append("/");
    path
}

impl DeSecClient {
    /// The token of a client may stand in a header.
    #[verifier::type_invariant]
    spec fn token_may_be_sent(self) -> bool {
        header_text_allowed(self.token@)
    }

    /// A client for the API of the provider, authorized by `token`. The
    /// token has to be a text that may stand in a header; nothing is sent.
    pub fn new(token: String) -> (made: Result<DeSecClient, DeSecError>)
        ensures
            match made {
                Ok(client) => header_text_allowed(token@) && client@ == (DeSecClientView {
                    api_url: API_URL@,
                    token: token@,
                }),
                Err(error) => !header_text_allowed(token@) && error@
                    == DeSecErrorView::ClientBuilder("failed to parse header value"@),
            },
    {
        let mut value = "Token ".to_owned();
        value.append(token.as_str());
        proof {
            lemma_authorization(token@);
        }
        match header_value(value.as_str()) {
            Ok(()) => Ok(DeSecClient { api_url: API_URL.to_owned(), token }),
            Err(message) => Err(DeSecError::ClientBuilder(message)),
        }
    }

    /// The same client for an API that is somewhere else.
    pub fn with_api_url(self, api_url: String) -> (client: DeSecClient)
        ensures
            client@ == (DeSecClientView { api_url: api_url@, token: self@.token }),
    {
        proof {
            use_type_invariant(&self);
        }
        DeSecClient { api_url, token: self.token }
    }

    /// Where the API is.
    pub fn api_url(&self) -> (url: &str)
        ensures
            url@ == self@.api_url,
    {
        self.api_url.as_str()
    }

    /// The value of the `Authorization` header that goes with every
    /// request. It may stand in a header.
    pub fn authorization(&self) -> (value: String)
        ensures
            value@ == self@.authorization(),
            header_text_allowed(value@),
    {
        proof {
            use_type_invariant(self);
            lemma_authorization(self.token@);
        }
        let mut value = "Token ".to_owned();
        value.append(self.token.as_str());
        value
    }

    /// The value of the `User-Agent` header that goes with every request.
    pub fn user_agent() -> (value: &'static str)
        ensures
            value@ == USER_AGENT@,
    {
        USER_AGENT
    }

    /// The headers that go with every request.
    fn headers(&self) -> (headers: Vec<(String, String)>)
        ensures
            headers.deep_view() == self@.headers(),
    {
        let mut headers: Vec<(String, String)> = Vec::new();
        headers.push(("Authorization".to_owned(), self.authorization()));
        headers.push(("User-Agent".to_owned(), USER_AGENT.to_owned()));
        assert(headers.deep_view() =~= self@.headers());
        headers
    }

    /// The request without a body for `path`.
    fn plain(&self, method: Method, path: String) -> (request: Request)
        ensures
            request@ == self@.plain(method, path@),
    {
        let mut url = self.api_url.clone();
        url.append(path.as_str());
        Request { method, url, headers: self.headers(), body: None }
    }

    /// The request for `path` with the given body.
    fn with_body(&self, method: Method, path: String, body: String) -> (request: Request)
        ensures
            request@ == self@.with_body(method, path@, body@),
    {
        let mut url = self.api_url.clone();
        url.append(path.as_str());
        let mut headers = self.headers();
        headers.push(("Content-Type".to_owned(), JSON_CONTENT_TYPE.to_owned()));
        assert(headers.deep_view() =~= self@.headers().push(
            ("Content-Type"@, JSON_CONTENT_TYPE@),
        ));
        Request { method, url, headers, body: Some(body) }
    }

    /// The request for `path` whose body is `json`, or the failure to write
    /// it.
    fn with_json(&self, method: Method, path: String, json: &Json) -> (made: Result<
        Request,
        DeSecError,
    >)
        ensures
            deep_result(made) == self@.with_json(method, path@, json@),
            json@.is_whole() ==> made is Ok,
    {
        match write_json(json) {
            Ok(text) => Ok(self.with_body(method, path, text)),
            Err(error) => Err(error),
        }
    }

    /// The request that asks for the account of the caller.
    pub fn get_account_info(&self) -> (request: Request)
        ensures
            request@ == self@.plain(Method::Get, "/auth/account/"@),
    {
        self.plain(Method::Get, "/auth/account/".to_owned())
    }

    /// What the reply to `get_account_info` means.
    pub fn get_account_info_reply(reply: Result<HttpResponse, String>) -> (outcome: Result<
        AccountInformation,
        DeSecError,
    >)
        ensures
            deep_result(outcome) == account_outcome(Operation::GetAccountInfo, deep_result(reply)),
    {
        settle_account(Operation::GetAccountInfo, reply)
    }

    /// The request that creates a domain of the given name. The body is a
    /// JSON object that holds the name, whatever characters the name is
    /// made of, and nothing else.
    pub fn create_domain(&self, domain: &str) -> (made: Result<Request, DeSecError>)
        ensures
            made is Ok,
            deep_result(made) == self@.with_json(Method::Post, "/domains/"@, new_domain(domain@)),
    {
        let mut members: Vec<Member> = Vec::new();
        assert(members.deep_view() =~= Seq::empty());
        put(&mut members, "name", Json::String(domain.to_owned()));
        proof {
            lemma_object_view(members);
            assert(members.deep_view() =~= seq![("name"@, JsonView::String(domain@))]);
            lemma_new_domain(domain@);
        }
        let json = Json::Object(members);
        self.with_json(Method::Post, "/domains/".to_owned(), &json)
    }

    /// What the reply to `create_domain` means.
    pub fn create_domain_reply(reply: Result<HttpResponse, String>) -> (outcome: Result<
        Domain,
        DeSecError,
    >)
        ensures
            deep_result(outcome) == domain_outcome(Operation::CreateDomain, deep_result(reply)),
    {
        settle_domain(Operation::CreateDomain, reply)
    }

    /// The request that lists the domains of the account.
    pub fn get_domains(&self) -> (request: Request)
        ensures
            request@ == self@.plain(Method::Get, "/domains/"@),
    {
        self.plain(Method::Get, "/domains/".to_owned())
    }

    /// What the reply to `get_domains` means.
    pub fn get_domains_reply(reply: Result<HttpResponse, String>) -> (outcome: Result<
        DomainList,
        DeSecError,
    >)
        ensures
            deep_result(outcome) == domains_outcome(Operation::GetDomains, deep_result(reply)),
    {
        settle_domains(Operation::GetDomains, reply)
    }

    /// The request that asks for one domain.
    pub fn get_domain(&self, domain: &str) -> (request: Request)
        ensures
            request@ == self@.plain(Method::Get, domain_path(domain@)),
    {
        self.plain(Method::Get, path_under_domain(domain, "/"))
    }

    /// What the reply to `get_domain` means.
    pub fn get_domain_reply(reply: Result<HttpResponse, String>) -> (outcome: Result<
        Domain,
        DeSecError,
    >)
        ensures
            deep_result(outcome) == domain_outcome(Operation::GetDomain, deep_result(reply)),
    {
        settle_domain(Operation::GetDomain, reply)
    }

    /// The request that deletes a domain.
    pub fn delete_domain(&self, domain: &str) -> (request: Request)
        ensures
            request@ == self@.plain(Method::Delete, domain_path(domain@)),
    {
        self.plain(Method::Delete, path_under_domain(domain, "/"))
    }

    /// What the reply to `delete_domain` means.
    pub fn delete_domain_reply(reply: Result<HttpResponse, String>) -> (outcome: Result<
        (),
        DeSecError,
    >)
        ensures
            deep_result(outcome) == unit_outcome(Operation::DeleteDomain, deep_result(reply)),
    {
        settle_unit(Operation::DeleteDomain, reply)
    }

    /// The request that asks for the zone file of a domain.
    pub fn get_zonefile(&self, domain: &str) -> (request: Request)
        ensures
            request@ == self@.plain(Method::Get, zonefile_path(domain@)),
    {
        self.plain(Method::Get, path_under_domain(domain, "/zonefile/"))
    }

    /// What the reply to `get_zonefile` means: the body as it came.
    pub fn get_zonefile_reply(reply: Result<HttpResponse, String>) -> (outcome: Result<
        String,
        DeSecError,
    >)
        ensures
            deep_result(outcome) == settled(Operation::GetZonefile, deep_result(reply)),
    {
        settle(Operation::GetZonefile, reply)
    }

    /// The request that creates a record set. The body holds the domain,
    /// the subname, the type, the records and the time to live, and no
    /// other field.
    pub fn create_rrset(
        &self,
        domain: String,
        subname: String,
        rrset_type: String,
        records: Vec<String>,
        ttl: u64,
    ) -> (made: Result<Request, DeSecError>)
        ensures
            made is Ok,
            deep_result(made) == self@.with_json(
                Method::Post,
                rrsets_path(domain@),
                new_rrset(domain@, subname@, rrset_type@, records.deep_view(), ttl).to_json(),
            ),
    {
        let path = path_under_domain(domain.as_str(), "/rrsets/");
        let set = ResourceRecordSet {
            created: None,
            domain: Some(domain),
            subname: Some(subname),
            name: None,
            rrset_type: Some(rrset_type),
            records: Some(records),
            ttl: Some(ttl),
            touched: None,
        };
        let json = set.to_json();
        proof {
            set@.lemma_whole();
        }
        self.with_json(Method::Post, path, &json)
    }

    /// What the reply to `create_rrset` means.
    pub fn create_rrset_reply(reply: Result<HttpResponse, String>) -> (outcome: Result<
        ResourceRecordSet,
        DeSecError,
    >)
        ensures
            deep_result(outcome) == rrset_outcome(Operation::CreateRRset, deep_result(reply)),
    {
        settle_rrset(Operation::CreateRRset, reply)
    }

    /// The request that creates several record sets at once.
    pub fn create_rrset_bulk(&self, domain: String, rrsets: ResourceRecordSetList) -> (made: Result<
        Request,
        DeSecError,
    >)
        ensures
            made is Ok,
            deep_result(made) == self@.with_json(
                Method::Post,
                rrsets_path(domain@),
                ResourceRecordSetView::list_to_json(rrsets.deep_view()),
            ),
    {
        let path = path_under_domain(domain.as_str(), "/rrsets/");
        let json = ResourceRecordSet::list_to_json(&rrsets);
        proof {
            ResourceRecordSetView::lemma_list_whole(rrsets.deep_view());
        }
        self.with_json(Method::Post, path, &json)
    }

    /// What the reply to `create_rrset_bulk` means.
    pub fn create_rrset_bulk_reply(reply: Result<HttpResponse, String>) -> (outcome: Result<
        (),
        DeSecError,
    >)
        ensures
            deep_result(outcome) == unit_outcome(Operation::CreateRRsetBulk, deep_result(reply)),
    {
        settle_unit(Operation::CreateRRsetBulk, reply)
    }

    /// The request that lists the record sets of a domain.
    pub fn get_rrsets(&self, domain: &str) -> (request: Request)
        ensures
            request@ == self@.plain(Method::Get, rrsets_path(domain@)),
    {
        self.plain(Method::Get, path_under_domain(domain, "/rrsets/"))
    }

    /// What the reply to `get_rrsets` means.
    pub fn get_rrsets_reply(reply: Result<HttpResponse, String>) -> (outcome: Result<
        ResourceRecordSetList,
        DeSecError,
    >)
        ensures
            deep_result(outcome) == rrsets_outcome(Operation::GetRRsets, deep_result(reply)),
    {
        settle_rrsets(Operation::GetRRsets, reply)
    }

    /// The request that asks for one record set.
    pub fn get_rrset(&self, domain: &str, subname: &str, rrset_type: &str) -> (request: Request)
        ensures
            request@ == self@.plain(Method::Get, rrset_path(domain@, subname@, rrset_type@)),
    {
        self.plain(Method::Get, path_of_rrset(domain, subname, rrset_type))
    }

    /// What the reply to `get_rrset` means.
    pub fn get_rrset_reply(reply: Result<HttpResponse, String>) -> (outcome: Result<
        ResourceRecordSet,
        DeSecError,
    >)
        ensures
            deep_result(outcome) == rrset_outcome(Operation::GetRRset, deep_result(reply)),
    {
        settle_rrset(Operation::GetRRset, reply)
    }

    /// The request that changes one record set. The body holds the fields
    /// of `patch` that hold a value, and no other.
    pub fn update_rrset(
        &self,
        domain: &str,
        subname: &str,
        rrset_type: &str,
        patch: &ResourceRecordSet,
    ) -> (made: Result<Request, DeSecError>)
        ensures
            made is Ok,
            deep_result(made) == self@.with_json(
                Method::Patch,
                rrset_path(domain@, subname@, rrset_type@),
                patch@.to_json(),
            ),
    {
        let path = path_of_rrset(domain, subname, rrset_type);
        let json = patch.to_json();
        proof {
            patch@.lemma_whole();
        }
        self.with_json(Method::Patch, path, &json)
    }

    /// What the reply to `update_rrset` means.
    pub fn update_rrset_reply(reply: Result<HttpResponse, String>) -> (outcome: Result<
        ResourceRecordSet,
        DeSecError,
    >)
        ensures
            deep_result(outcome) == rrset_outcome(Operation::UpdateRRset, deep_result(reply)),
    {
        settle_rrset(Operation::UpdateRRset, reply)
    }

    /// The request that changes several record sets at once.
    pub fn update_rrset_bulk(&self, domain: String, rrsets: ResourceRecordSetList) -> (made: Result<
        Request,
        DeSecError,
    >)
        ensures
            made is Ok,
            deep_result(made) == self@.with_json(
                Method::Patch,
                rrsets_path(domain@),
                ResourceRecordSetView::list_to_json(rrsets.deep_view()),
            ),
    {
        let path = path_under_domain(domain.as_str(), "/rrsets/");
        let json = ResourceRecordSet::list_to_json(&rrsets);
        proof {
            ResourceRecordSetView::lemma_list_whole(rrsets.deep_view());
        }
        self.with_json(Method::Patch, path, &json)
    }

    /// What the reply to `update_rrset_bulk` means.
    pub fn update_rrset_bulk_reply(reply: Result<HttpResponse, String>) -> (outcome: Result<
        (),
        DeSecError,
    >)
        ensures
            deep_result(outcome) == unit_outcome(Operation::UpdateRRsetBulk, deep_result(reply)),
    {
        settle_unit(Operation::UpdateRRsetBulk, reply)
    }

    /// The request that deletes one record set.
    pub fn delete_rrset(&self, domain: &str, subname: &str, rrset_type: &str) -> (request: Request)
        ensures
            request@ == self@.plain(Method::Delete, rrset_path(domain@, subname@, rrset_type@)),
    {
        self.plain(Method::Delete, path_of_rrset(domain, subname, rrset_type))
    }

    /// What the reply to `delete_rrset` means.
    pub fn delete_rrset_reply(reply: Result<HttpResponse, String>) -> (outcome: Result<
        (),
        DeSecError,
    >)
        ensures
            deep_result(outcome) == unit_outcome(Operation::DeleteRRset, deep_result(reply)),
    {
        settle_unit(Operation::DeleteRRset, reply)
    }
}

/// The document that asks for a domain holds the name under `name` and
/// nothing under any other name, and it can always be written as text.
pub proof fn lemma_new_domain(domain: Seq<char>)
    ensures
        new_domain(domain).field("name"@) == Some(JsonView::String(domain)),
        forall|key: Seq<char>| key != "name"@ ==> new_domain(domain).field(key) is None,
        new_domain(domain).is_whole(),
{
    let members = seq![("name"@, JsonView::String(domain))];
    assert(members.last() == ("name"@, JsonView::String(domain)));
    assert(members.drop_last() =~= Seq::empty());
    assert forall|key: Seq<char>| key != "name"@ implies new_domain(domain).field(key) is None by {
        assert(lookup(members.drop_last(), key) is None);
    }
    assert forall|i: int| 0 <= i < members.len() implies (#[trigger] members[i]).1.is_whole() by {
        assert(members[i].1 == JsonView::String(domain));
    }
}

/// The value of the `Authorization` header may be sent exactly when the
/// token may.
pub proof fn lemma_authorization(token: Seq<char>)
    ensures
        header_text_allowed("Token "@ + token) <==> header_text_allowed(token),
{
    reveal_strlit("Token ");
    let value = "Token "@ + token;
    if header_text_allowed(token) {
        assert forall|i: int| 0 <= i < value.len() implies header_char_allowed(
            #[trigger] value[i],
        ) by {
            if i >= 6 {
                assert(value[i] == token[i - 6]);
            }
        }
    }
    if header_text_allowed(value) {
        assert forall|i: int| 0 <= i < token.len() implies header_char_allowed(
            #[trigger] token[i],
        ) by {
            assert(token[i] == value[i + 6]);
        }
    }
}

} // verus!

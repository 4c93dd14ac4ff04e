//! What the reply to a request means: the value that the operation returns,
//! or the failure that the status or the body stands for.

use crate::account::{AccountInformation, AccountInformationView};
use crate::domain::{Domain, DomainList, DomainView};
use crate::error::{deep_result, DeSecError, DeSecErrorView};
use crate::http::{HttpResponse, HttpResponseView};
use crate::json::{parse_text, parsed_json, Json, JsonView};
use crate::rrset::{ResourceRecordSet, ResourceRecordSetList, ResourceRecordSetView};
use crate::status::{Operation, Verdict};
use vstd::prelude::*;

verus! {

/// The reason given where a body is JSON and does not stand for what the
/// operation returns.
pub const UNEXPECTED_SHAPE: &'static str = "the response does not have the expected shape";

/// What a reply means before its body is read as a value: the body where
/// the status is the one of success, and the failure that the status stands
/// for otherwise. The failure to get any response is an HTTP failure
/// without a status.
pub open spec fn settled(op: Operation, reply: Result<HttpResponseView, Seq<char>>) -> Result<
    Seq<char>,
    DeSecErrorView,
> {
    match reply {
        Err(detail) => Err(DeSecErrorView::Http { status: None, detail }),
        Ok(response) => match op.verdict(response.status) {
            Verdict::Success => Ok(response.body),
            Verdict::BadRequest => Err(DeSecErrorView::BadRequest(response.body)),
            Verdict::DomainLimit => Err(DeSecErrorView::DomainLimit),
            Verdict::NotFound => Err(DeSecErrorView::NotFound),
            Verdict::Bulk => match parsed_json(response.body) {
                Ok(detail) => Err(DeSecErrorView::HttpBulk(detail)),
                Err(message) => Err(DeSecErrorView::Parser(message)),
            },
            Verdict::Http => Err(
                DeSecErrorView::Http { status: Some(response.status), detail: response.body },
            ),
            Verdict::Unexpected => Err(DeSecErrorView::HttpUnexpectedStatus(response)),
        },
    }
}

/// A body read as JSON, or the failure to read it.
pub open spec fn json_body(body: Seq<char>) -> Result<JsonView, DeSecErrorView> {
    match parsed_json(body) {
        Ok(json) => Ok(json),
        Err(message) => Err(DeSecErrorView::Parser(message)),
    }
}

/// What was read from a body, or the failure that it is not what the
/// operation returns.
pub open spec fn shaped<V>(decoded: Option<V>) -> Result<V, DeSecErrorView> {
    match decoded {
        Some(value) => Ok(value),
        None => Err(DeSecErrorView::Parser(UNEXPECTED_SHAPE@)),
    }
}

/// What a reply means for an operation that returns nothing.
pub open spec fn unit_outcome(op: Operation, reply: Result<HttpResponseView, Seq<char>>) -> Result<
    (),
    DeSecErrorView,
> {
    match settled(op, reply) {
        Ok(_) => Ok(()),
        Err(error) => Err(error),
    }
}

/// What a reply means for an operation that returns an account.
pub open spec fn account_outcome(
    op: Operation,
    reply: Result<HttpResponseView, Seq<char>>,
) -> Result<AccountInformationView, DeSecErrorView> {
    match settled(op, reply) {
        Ok(body) => match json_body(body) {
            Ok(json) => shaped(AccountInformationView::from_json(json)),
            Err(error) => Err(error),
        },
        Err(error) => Err(error),
    }
}

/// What a reply means for an operation that returns a domain.
pub open spec fn domain_outcome(op: Operation, reply: Result<HttpResponseView, Seq<char>>) -> Result<
    DomainView,
    DeSecErrorView,
> {
    match settled(op, reply) {
        Ok(body) => match json_body(body) {
            Ok(json) => shaped(DomainView::from_json(json)),
            Err(error) => Err(error),
        },
        Err(error) => Err(error),
    }
}

/// What a reply means for an operation that returns a list of domains.
pub open spec fn domains_outcome(
    op: Operation,
    reply: Result<HttpResponseView, Seq<char>>,
) -> Result<Seq<DomainView>, DeSecErrorView> {
    match settled(op, reply) {
        Ok(body) => match json_body(body) {
            Ok(json) => shaped(DomainView::list_from_json(json)),
            Err(error) => Err(error),
        },
        Err(error) => Err(error),
    }
}

/// What a reply means for an operation that returns a record set.
pub open spec fn rrset_outcome(op: Operation, reply: Result<HttpResponseView, Seq<char>>) -> Result<
    ResourceRecordSetView,
    DeSecErrorView,
> {
    match settled(op, reply) {
        Ok(body) => match json_body(body) {
            Ok(json) => shaped(ResourceRecordSetView::from_json(json)),
            Err(error) => Err(error),
        },
        Err(error) => Err(error),
    }
}

/// What a reply means for an operation that returns a list of record sets.
pub open spec fn rrsets_outcome(
    op: Operation,
    reply: Result<HttpResponseView, Seq<char>>,
) -> Result<Seq<ResourceRecordSetView>, DeSecErrorView> {
    match settled(op, reply) {
        Ok(body) => match json_body(body) {
            Ok(json) => shaped(ResourceRecordSetView::list_from_json(json)),
            Err(error) => Err(error),
        },
        Err(error) => Err(error),
    }
}

/// What a reply means before its body is read as a value.
pub fn settle(op: Operation, reply: Result<HttpResponse, String>) -> (outcome: Result<
    String,
    DeSecError,
>)
    ensures
        deep_result(outcome) == settled(op, deep_result(reply)),
{
    match reply {
        Err(detail) => Err(DeSecError::Http { status: None, detail }),
        Ok(response) => match op.classify(response.status) {
            Verdict::Success => Ok(response.body),
            Verdict::BadRequest => Err(DeSecError::BadRequest(response.body)),
            Verdict::DomainLimit => Err(DeSecError::DomainLimit),
            Verdict::NotFound => Err(DeSecError::NotFound),
            Verdict::Bulk => match parse_text(response.body.as_str()) {
                Ok(detail) => Err(DeSecError::HttpBulk(detail)),
                Err(message) => Err(DeSecError::Parser(message)),
            },
            Verdict::Http => Err(
                DeSecError::Http { status: Some(response.status), detail: response.body },
            ),
            Verdict::Unexpected => Err(DeSecError::HttpUnexpectedStatus(response)),
        },
    }
}

/// A body read as JSON, or the failure to read it.
pub fn read_json(body: &str) -> (outcome: Result<Json, DeSecError>)
    ensures
        deep_result(outcome) == json_body(body@),
{
    match parse_text(body) {
        Ok(json) => Ok(json),
        Err(message) => Err(DeSecError::Parser(message)),
    }
}

/// The failure that a body is not what the operation returns.
pub fn unexpected_shape() -> (error: DeSecError)
    ensures
        error@ == DeSecErrorView::Parser(UNEXPECTED_SHAPE@),
{
    DeSecError::Parser(UNEXPECTED_SHAPE.to_owned())
}

/// What a reply means for an operation that returns nothing.
pub fn settle_unit(op: Operation, reply: Result<HttpResponse, String>) -> (outcome: Result<
    (),
    DeSecError,
>)
    ensures
        deep_result(outcome) == unit_outcome(op, deep_result(reply)),
{
    match settle(op, reply) {
        Ok(_) => Ok(()),
        Err(error) => Err(error),
    }
}

/// What a reply means for an operation that returns a domain.
pub fn settle_domain(op: Operation, reply: Result<HttpResponse, String>) -> (outcome: Result<
    Domain,
    DeSecError,
>)
    ensures
        deep_result(outcome) == domain_outcome(op, deep_result(reply)),
{
    let body = settle(op, reply)?;
    let json = read_json(body.as_str())?;
    match Domain::from_json(&json) {
        Some(domain) => Ok(domain),
        None => Err(unexpected_shape()),
    }
}

/// What a reply means for an operation that returns a record set.
pub fn settle_rrset(op: Operation, reply: Result<HttpResponse, String>) -> (outcome: Result<
    ResourceRecordSet,
    DeSecError,
>)
    ensures
        deep_result(outcome) == rrset_outcome(op, deep_result(reply)),
{
    let body = settle(op, reply)?;
    let json = read_json(body.as_str())?;
    match ResourceRecordSet::from_json(&json) {
        Some(set) => Ok(set),
        None => Err(unexpected_shape()),
    }
}

/// What a reply means for an operation that returns an account.
pub fn settle_account(op: Operation, reply: Result<HttpResponse, String>) -> (outcome: Result<
    AccountInformation,
    DeSecError,
>)
    ensures
        deep_result(outcome) == account_outcome(op, deep_result(reply)),
{
    let body = settle(op, reply)?;
    let json = read_json(body.as_str())?;
    match AccountInformation::from_json(&json) {
        Some(account) => Ok(account),
        None => Err(unexpected_shape()),
    }
}

/// What a reply means for an operation that returns a list of domains.
pub fn settle_domains(op: Operation, reply: Result<HttpResponse, String>) -> (outcome: Result<
    DomainList,
    DeSecError,
>)
    ensures
        deep_result(outcome) == domains_outcome(op, deep_result(reply)),
{
    let body = settle(op, reply)?;
    let json = read_json(body.as_str())?;
    match Domain::list_from_json(&json) {
        Some(list) => Ok(list),
        None => Err(unexpected_shape()),
    }
}

/// What a reply means for an operation that returns a list of record sets.
pub fn settle_rrsets(op: Operation, reply: Result<HttpResponse, String>) -> (outcome: Result<
    ResourceRecordSetList,
    DeSecError,
>)
    ensures
        deep_result(outcome) == rrsets_outcome(op, deep_result(reply)),
{
    let body = settle(op, reply)?;
    let json = read_json(body.as_str())?;
    match ResourceRecordSet::list_from_json(&json) {
        Some(list) => Ok(list),
        None => Err(unexpected_shape()),
    }
}

/// A reply with a status other than the one of success never gives a
/// value, whatever its body holds.
pub proof fn lemma_no_value_without_success(op: Operation, response: HttpResponseView)
    requires
        !op.succeeds_with(response.status),
    ensures
        settled(op, Ok(response)) is Err,
        unit_outcome(op, Ok(response)) is Err,
        account_outcome(op, Ok(response)) is Err,
        domain_outcome(op, Ok(response)) is Err,
        domains_outcome(op, Ok(response)) is Err,
        rrset_outcome(op, Ok(response)) is Err,
        rrsets_outcome(op, Ok(response)) is Err,
{
}

/// Asking for a domain or a record set that does not exist, which the
/// server answers with status 404, fails with `NotFound`.
pub proof fn lemma_missing_is_not_found(response: HttpResponseView)
    requires
        response.status == 404,
    ensures
        domain_outcome(Operation::GetDomain, Ok(response)) == Err::<DomainView, DeSecErrorView>(
            DeSecErrorView::NotFound,
        ),
        rrset_outcome(Operation::GetRRset, Ok(response)) == Err::<
            ResourceRecordSetView,
            DeSecErrorView,
        >(DeSecErrorView::NotFound),
{
}

/// Creating a domain that the server refuses with a status of the 4xx
/// range fails: with the body of the response on 400, with `DomainLimit` on
/// 403, and with the whole response on any other status.
pub proof fn lemma_refused_domain(response: HttpResponseView)
    requires
        400 <= response.status < 500,
    ensures
        domain_outcome(Operation::CreateDomain, Ok(response)) == Err::<DomainView, DeSecErrorView>(
            if response.status == 400 {
                DeSecErrorView::BadRequest(response.body)
            } else if response.status == 403 {
                DeSecErrorView::DomainLimit
            } else {
                DeSecErrorView::HttpUnexpectedStatus(response)
            },
        ),
{
}

} // verus!

//! What can go wrong with an operation.

use crate::http::{HttpResponse, HttpResponseView};
use crate::json::{print_text, printed_json, Json, JsonView};
use vstd::prelude::*;
use vstd::string::StringExecFns;

verus! {

/// The failure of an operation.
#[derive(Debug, Clone, PartialEq, Eq)]
pub enum DeSecError {
    /// The server refused a write with status 400; the text is the body of
    /// its response.
    BadRequest(String),
    /// The request did not get through, or the server answered outside the
    /// 2xx range; the status where there was a response.
    Http { status: Option<u16>, detail: String },
    /// The server refused a bulk write or an update with status 400; the
    /// document is the body of its response, item by item.
    HttpBulk(Json),
    /// The server answered with a status that the operation does not know.
    HttpUnexpectedStatus(HttpResponse),
    /// The resource does not exist.
    NotFound,
    /// The account may not hold another domain.
    DomainLimit,
    /// The body of a response, or a body to send, is not what it should be.
    Parser(String),
    /// The client could not be made.
    ClientBuilder(String),
    /// Any other failure.
    Generic(String),
}

/// The mathematical value of a [`DeSecError`].
pub ghost enum DeSecErrorView {
    BadRequest(Seq<char>),
    Http { status: Option<u16>, detail: Seq<char> },
    HttpBulk(JsonView),
    HttpUnexpectedStatus(HttpResponseView),
    NotFound,
    DomainLimit,
    Parser(Seq<char>),
    ClientBuilder(Seq<char>),
    Generic(Seq<char>),
}

impl DeepView for DeSecError {
    type V = DeSecErrorView;

    open spec fn deep_view(&self) -> DeSecErrorView {
        match self {
            DeSecError::BadRequest(body) => DeSecErrorView::BadRequest(body@),
            DeSecError::Http { status, detail } => DeSecErrorView::Http {
                status: *status,
                detail: detail@,
            },
            DeSecError::HttpBulk(detail) => DeSecErrorView::HttpBulk(detail@),
            DeSecError::HttpUnexpectedStatus(response) => DeSecErrorView::HttpUnexpectedStatus(
                response@,
            ),
            DeSecError::NotFound => DeSecErrorView::NotFound,
            DeSecError::DomainLimit => DeSecErrorView::DomainLimit,
            DeSecError::Parser(message) => DeSecErrorView::Parser(message@),
            DeSecError::ClientBuilder(message) => DeSecErrorView::ClientBuilder(message@),
            DeSecError::Generic(message) => DeSecErrorView::Generic(message@),
        }
    }
}

impl View for DeSecError {
    type V = DeSecErrorView;

    open spec fn view(&self) -> DeSecErrorView {
        self.deep_view()
    }
}

/// The mathematical value of a result: that of what it holds.
pub open spec fn deep_result<T: DeepView, E: DeepView>(result: Result<T, E>) -> Result<T::V, E::V> {
    match result {
        Ok(value) => Ok(value.deep_view()),
        Err(error) => Err(error.deep_view()),
    }
}

impl DeSecErrorView {
    /// The text that describes the failure to a reader.
    pub open spec fn message(self) -> Seq<char> {
        match self {
            DeSecErrorView::BadRequest(body) => "Operation cannot be performed: "@ + body,
            DeSecErrorView::Http { status, detail } => "An http error occured: "@ + detail,
            DeSecErrorView::HttpBulk(detail) => "Bulk request rejected: "@ + match printed_json(
                detail,
            ) {
                Ok(text) => text,
                Err(message) => message,
            },
            DeSecErrorView::HttpUnexpectedStatus(response) =>
                "An unknown http status code has been received"@,
            DeSecErrorView::NotFound => "The requet resource does not exist"@,
            DeSecErrorView::DomainLimit => "You reached your deSEC domain limit"@,
            DeSecErrorView::Parser(message) => "Failed to parse the response: "@ + message,
            DeSecErrorView::ClientBuilder(message) => "Failed to create HTTP client: "@ + message,
            DeSecErrorView::Generic(message) => "Failed to create HTTP client: "@ + message,
        }
    }
}

impl DeSecError {
    /// The text that describes the failure to a reader.
    pub fn message(&self) -> (text: String)
        ensures
            text@ == self@.message(),
    {
        match self {
            DeSecError::BadRequest(body) => "Operation cannot be performed: ".to_owned().concat(
                body.as_str(),
            ),
            DeSecError::Http { status: _, detail } => "An http error occured: ".to_owned().concat(
                detail.as_str(),
            ),
            DeSecError::HttpBulk(detail) => {
                let printed = match print_text(detail) {
                    Ok(text) => text,
                    Err(message) => message,
                };
                "Bulk request rejected: ".to_owned().concat(printed.as_str())
            },
            DeSecError::HttpUnexpectedStatus(_) =>
                "An unknown http status code has been received".to_owned(),
            DeSecError::NotFound => "The requet resource does not exist".to_owned(),
            DeSecError::DomainLimit => "You reached your deSEC domain limit".to_owned(),
            DeSecError::Parser(message) => "Failed to parse the response: ".to_owned().concat(
                message.as_str(),
            ),
            DeSecError::ClientBuilder(message) => "Failed to create HTTP client: ".to_owned().concat(
                message.as_str(),
            ),
            DeSecError::Generic(message) => "Failed to create HTTP client: ".to_owned().concat(
                message.as_str(),
            ),
        }
    }
}

} // verus!

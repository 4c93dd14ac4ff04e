//! A typed client binding for the deSEC DNS hosting REST API.
//!
//! The library builds the request of each operation and says what the reply
//! to it means; sending the one and receiving the other is left to the
//! caller.

pub mod account;
pub mod client;
pub mod domain;
pub mod error;
pub mod fields;
pub mod header;
pub mod http;
pub mod json;
pub mod reply;
pub mod rrset;
pub mod status;

pub use crate::account::AccountInformation;
pub use crate::client::DeSecClient;
pub use crate::domain::{DNSSECKeyInfo, Domain, DomainList};
pub use crate::error::DeSecError;
pub use crate::http::{HttpResponse, Method, Request};
pub use crate::json::{Json, Member};
pub use crate::rrset::{ResourceRecordSet, ResourceRecordSetList};
pub use crate::status::{Operation, Verdict};

//! What the status of a response means for each operation.

use vstd::prelude::*;

verus! {

/// The operations of the API.
#[derive(Debug, Clone, Copy, PartialEq, Eq, Structural)]
pub enum Operation {
    GetAccountInfo,
    CreateDomain,
    GetDomains,
    GetDomain,
    DeleteDomain,
    GetZonefile,
    CreateRRset,
    CreateRRsetBulk,
    GetRRsets,
    GetRRset,
    UpdateRRset,
    UpdateRRsetBulk,
    DeleteRRset,
}

/// What a status means for an operation.
#[derive(Debug, Clone, Copy, PartialEq, Eq, Structural)]
pub enum Verdict {
    /// The operation succeeded.
    Success,
    /// Status 400 on a write of one item.
    BadRequest,
    /// Status 403 on the creation of a domain.
    DomainLimit,
    /// Status 404 on a resource that was named.
    NotFound,
    /// Status 400 on a bulk write or an update, with a detail for each item.
    Bulk,
    /// A status outside the 2xx range on an operation that reports it as such.
    Http,
    /// A status that the operation does not know.
    Unexpected,
}

impl Operation {
    /// Whether `status` is the one with which the operation succeeds.
    pub open spec fn succeeds_with(self, status: u16) -> bool {
        match self {
            Operation::CreateDomain | Operation::CreateRRset | Operation::CreateRRsetBulk => status
                == 201,
            Operation::DeleteDomain | Operation::DeleteRRset => status == 204,
            Operation::UpdateRRsetBulk => status == 200 || status == 201,
            _ => status == 200,
        }
    }

    /// Whether the operation names one resource, so that status 404 says
    /// that it does not exist.
    pub open spec fn names_a_resource(self) -> bool {
        matches!(
            self,
            Operation::GetDomain | Operation::DeleteDomain | Operation::GetZonefile
                | Operation::GetRRsets | Operation::GetRRset
        )
    }

    /// Whether the operation writes one item, so that status 400 comes with
    /// a plain text.
    pub open spec fn writes_one_item(self) -> bool {
        matches!(self, Operation::CreateDomain | Operation::CreateRRset)
    }

    /// Whether status 400 comes with a detail for each item.
    pub open spec fn is_refused_in_detail(self) -> bool {
        matches!(
            self,
            Operation::CreateRRsetBulk | Operation::UpdateRRset | Operation::UpdateRRsetBulk
        )
    }

    /// Whether the operation reports every status outside the 2xx range as
    /// an HTTP failure.
    pub open spec fn reports_http_failures(self) -> bool {
        matches!(self, Operation::GetAccountInfo | Operation::DeleteRRset)
    }

    /// What `status` means for the operation.
    pub open spec fn verdict(self, status: u16) -> Verdict {
        if self.succeeds_with(status) {
            Verdict::Success
        } else if status == 404 && self.names_a_resource() {
            Verdict::NotFound
        } else if status == 400 && self.writes_one_item() {
            Verdict::BadRequest
        } else if status == 400 && self.is_refused_in_detail() {
            Verdict::Bulk
        } else if status == 403 && self == Operation::CreateDomain {
            Verdict::DomainLimit
        } else if self.reports_http_failures() && !(200 <= status < 300) {
            Verdict::Http
        } else {
            Verdict::Unexpected
        }
    }

    /// What `status` means for the operation.
    pub fn classify(self, status: u16) -> (verdict: Verdict)
        ensures
            verdict == self.verdict(status),
    {
        match self {
            Operation::GetAccountInfo => match status {
                200 => Verdict::Success,
                201..=299 => Verdict::Unexpected,
                _ => Verdict::Http,
            },
            Operation::CreateDomain => match status {
                201 => Verdict::Success,
                400 => Verdict::BadRequest,
                403 => Verdict::DomainLimit,
                _ => Verdict::Unexpected,
            },
            Operation::GetDomains => match status {
                200 => Verdict::Success,
                _ => Verdict::Unexpected,
            },
            Operation::GetDomain | Operation::GetZonefile | Operation::GetRRsets
            | Operation::GetRRset => match status {
                200 => Verdict::Success,
                404 => Verdict::NotFound,
                _ => Verdict::Unexpected,
            },
            Operation::DeleteDomain => match status {
                204 => Verdict::Success,
                404 => Verdict::NotFound,
                _ => Verdict::Unexpected,
            },
            Operation::CreateRRset => match status {
                201 => Verdict::Success,
                400 => Verdict::BadRequest,
                _ => Verdict::Unexpected,
            },
            Operation::CreateRRsetBulk => match status {
                201 => Verdict::Success,
                400 => Verdict::Bulk,
                _ => Verdict::Unexpected,
            },
            Operation::UpdateRRset => match status {
                200 => Verdict::Success,
                400 => Verdict::Bulk,
                _ => Verdict::Unexpected,
            },
            Operation::UpdateRRsetBulk => match status {
                200 | 201 => Verdict::Success,
                400 => Verdict::Bulk,
                _ => Verdict::Unexpected,
            },
            Operation::DeleteRRset => match status {
                204 => Verdict::Success,
                200..=299 => Verdict::Unexpected,
                _ => Verdict::Http,
            },
        }
    }

    /// No status is taken for a success but the one that the operation
    /// succeeds with, and every operation has such a status.
    pub proof fn lemma_success_is_never_guessed(self, status: u16)
        ensures
            self.verdict(status) == Verdict::Success <==> self.succeeds_with(status),
            self.succeeds_with(status) ==> 200 <= status < 300,
            exists|s: u16| self.succeeds_with(s),
    {
        assert(self.succeeds_with(200) || self.succeeds_with(201) || self.succeeds_with(204));
    }

    /// Status 404 on an operation that names one resource means that the
    /// resource does not exist.
    pub proof fn lemma_missing_resource(self)
        requires
            self.names_a_resource(),
        ensures
            self.verdict(404) == Verdict::NotFound,
    {
    }
}

} // verus!

//! Listing, reading and issuing invoices.

use vstd::prelude::*;

use crate::application::DatabaseError;

use crate::application::dashboard::invalid_query_error;
use crate::domain::invoice::{
    issue_outcome, InvoiceIssue, InvoiceIssueError, InvoiceIssueInput, InvoiceIssueView,
};
use crate::domain::service_visit::ServiceVisitStatus;
use crate::storage::str_eq;

verus! {

pub const DEFAULT_INVOICE_DIRECTORY_LIMIT: u32 = 50;

pub const MAX_INVOICE_DIRECTORY_LIMIT: u32 = 100;

#[derive(Debug, Clone, Copy, PartialEq, Eq)]
pub enum InvoiceStatus {
    Draft,
    Issued,
    Cancelled,
}

#[derive(Debug, Clone, Copy, PartialEq, Eq)]
pub enum InvoiceDirectoryStatusFilter {
    All,
    Draft,
    Issued,
    Cancelled,
}

#[derive(Debug, Clone, PartialEq, Eq)]
pub struct ListInvoicesInput {
    pub query: String,
    pub status_filter: Option<InvoiceDirectoryStatusFilter>,
    pub limit: Option<u32>,
}

#[derive(Debug, Clone, PartialEq, Eq)]
pub struct InvoiceDirectoryEntry {
    pub id: i64,
    pub service_visit_id: i64,
    pub status: InvoiceStatus,
    pub invoice_number: Option<String>,
    pub issued_at: Option<i64>,
    pub customer_name: String,
    pub customer_phone: String,
    pub motorcycle: String,
    pub plate_number: Option<String>,
    pub total_fils: i64,
}

#[derive(Debug, Clone, PartialEq, Eq)]
pub struct InvoiceDetails {
    pub id: i64,
    pub service_visit_id: i64,
    pub status: InvoiceStatus,
    pub invoice_number: Option<String>,
    pub issued_at: Option<i64>,
    pub customer_name: String,
    pub customer_phone: String,
    pub motorcycle_make_name: String,
    pub motorcycle_model: String,
    pub motorcycle_plate_number: Option<String>,
    pub motorcycle_vin: Option<String>,
    pub motorcycle_chassis_number: Option<String>,
    pub labor_charge_fils: i64,
    pub parts_total_fils: i64,
    pub total_fils: i64,
    pub notes: Option<String>,
    pub lines: Vec<InvoiceLine>,
}

#[derive(Debug, Clone, PartialEq, Eq)]
pub struct InvoiceLine {
    pub service_visit_part_id: i64,
    pub item_name: String,
    pub unit_name: String,
    pub quantity: i64,
    pub quantity_scale: i64,
    pub unit_price_fils: i64,
    pub line_total_fils: i64,
}

#[derive(Debug, Clone, PartialEq, Eq)]
pub struct IssueInvoiceInput {
    pub service_visit_id: i64,
    pub issued_at: i64,
}

#[derive(Debug)]
pub enum InvoiceApplicationError {
    InvoiceNotFound(i64),
    InvoiceAlreadyIssued(i64),
    ServiceVisitNotInvoiceable,
    Validation(InvoiceIssueError),
    Database(DatabaseError),
}

pub open spec fn invoice_status_text(status: InvoiceStatus) -> Seq<char> {
    match status {
        InvoiceStatus::Draft => "DRAFT"@,
        InvoiceStatus::Issued => "ISSUED"@,
        InvoiceStatus::Cancelled => "CANCELLED"@,
    }
}

pub open spec fn invoice_status_from_text(text: Seq<char>) -> Option<InvoiceStatus> {
    if text == "DRAFT"@ {
        Some(InvoiceStatus::Draft)
    } else if text == "ISSUED"@ {
        Some(InvoiceStatus::Issued)
    } else if text == "CANCELLED"@ {
        Some(InvoiceStatus::Cancelled)
    } else {
        None
    }
}

/// The stored status of an invoice; any other text is a database error.
pub fn parse_status(value: &str) -> (r: Result<InvoiceStatus, InvoiceApplicationError>)
    ensures
        match invoice_status_from_text(value@) {
            Some(s) => r matches Ok(t) && t == s,
            None => r matches Err(InvoiceApplicationError::Database(_)),
        },
{
    if str_eq(value, "DRAFT") {
        Ok(InvoiceStatus::Draft)
    } else if str_eq(value, "ISSUED") {
        Ok(InvoiceStatus::Issued)
    } else if str_eq(value, "CANCELLED") {
        Ok(InvoiceStatus::Cancelled)
    } else {
        Err(InvoiceApplicationError::Database(invalid_query_error()))
    }
}

/// Reading back the stored text of an invoice status gives that status.
pub proof fn invoice_status_text_round_trip(status: InvoiceStatus)
    ensures
        invoice_status_from_text(invoice_status_text(status)) == Some(status),
{
    reveal_strlit("DRAFT");
    reveal_strlit("ISSUED");
    reveal_strlit("CANCELLED");
    assert("DRAFT"@.len() == 5);
    assert("ISSUED"@.len() == 6);
    assert("CANCELLED"@.len() == 9);
}

/// The stored status a directory filter selects; `All` selects every status.
pub fn filter_status(filter: InvoiceDirectoryStatusFilter) -> (r: Option<&'static str>)
    ensures
        match filter {
            InvoiceDirectoryStatusFilter::All => r.is_none(),
            InvoiceDirectoryStatusFilter::Draft => r matches Some(s) && s@ == invoice_status_text(
                InvoiceStatus::Draft,
            ),
            InvoiceDirectoryStatusFilter::Issued => r matches Some(s) && s@ == invoice_status_text(
                InvoiceStatus::Issued,
            ),
            InvoiceDirectoryStatusFilter::Cancelled => r matches Some(s) && s@
                == invoice_status_text(InvoiceStatus::Cancelled),
        },
{
    match filter {
        InvoiceDirectoryStatusFilter::All => None,
        InvoiceDirectoryStatusFilter::Draft => Some("DRAFT"),
        InvoiceDirectoryStatusFilter::Issued => Some("ISSUED"),
        InvoiceDirectoryStatusFilter::Cancelled => Some("CANCELLED"),
    }
}

/// The invoice to issue for a service visit, from what is stored about the
/// draft and the visit: only a draft can be issued, and the visit must be
/// invoiceable.
pub fn plan_invoice_issue(
    invoice_id: i64,
    service_visit_id: i64,
    invoice_status: &str,
    service_visit_status: ServiceVisitStatus,
    completed_at: Option<i64>,
    labor_charge_fils: i64,
    active_part_line_totals_fils: Vec<i64>,
    issued_at: i64,
) -> (r: Result<InvoiceIssue, InvoiceApplicationError>)
    ensures
        invoice_status@ != invoice_status_text(InvoiceStatus::Draft) ==> (r matches Err(
            InvoiceApplicationError::InvoiceAlreadyIssued(id),
        ) && id == invoice_id),
        invoice_status@ == invoice_status_text(InvoiceStatus::Draft) ==> match issue_outcome(
            InvoiceIssueInput {
                invoice_id,
                service_visit_id,
                service_visit_status,
                completed_at,
                issued_at,
                labor_charge_fils,
                active_part_line_totals_fils,
            },
        ) {
            Ok(v) => r matches Ok(issue) && issue@ == v,
            Err(InvoiceIssueError::ServiceVisitNotInvoiceable) => r matches Err(
                InvoiceApplicationError::ServiceVisitNotInvoiceable,
            ),
            Err(e) => r matches Err(InvoiceApplicationError::Validation(f)) && f == e,
        },
{
    if !str_eq(invoice_status, "DRAFT") {
        return Err(InvoiceApplicationError::InvoiceAlreadyIssued(invoice_id));
    }
    match InvoiceIssue::new(
        InvoiceIssueInput {
            invoice_id,
            service_visit_id,
            service_visit_status,
            completed_at,
            issued_at,
            labor_charge_fils,
            active_part_line_totals_fils,
        },
    ) {
        Ok(issue) => Ok(issue),
        Err(InvoiceIssueError::ServiceVisitNotInvoiceable) => Err(
            InvoiceApplicationError::ServiceVisitNotInvoiceable,
        ),
        Err(other) => Err(InvoiceApplicationError::Validation(other)),
    }
}

} // verus!

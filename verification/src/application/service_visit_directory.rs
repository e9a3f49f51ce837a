//! The directory of service visits, filtered by status.

use vstd::prelude::*;

use crate::application::DatabaseError;

use crate::domain::service_visit::ServiceVisitStatus;
use crate::storage::{visit_status_from_text, visit_status_text, visit_status_text_round_trip};

verus! {

pub const DEFAULT_SERVICE_VISIT_DIRECTORY_LIMIT: u32 = 50;

pub const MAX_SERVICE_VISIT_DIRECTORY_LIMIT: u32 = 100;

#[derive(Debug, Clone, Copy, PartialEq, Eq)]
pub enum ServiceVisitDirectoryStatusFilter {
    Active,
    All,
    Open,
    ReadyForPickup,
    Closed,
    Cancelled,
}

#[derive(Debug, Clone, PartialEq, Eq)]
pub struct ListServiceVisitsInput {
    pub query: String,
    pub status_filter: Option<ServiceVisitDirectoryStatusFilter>,
    pub limit: Option<u32>,
}

#[derive(Debug, Clone, PartialEq, Eq)]
pub struct ServiceVisitDirectoryEntry {
    pub id: i64,
    pub customer_name: String,
    pub customer_phone: String,
    pub motorcycle_id: i64,
    pub make_name: String,
    pub model: String,
    pub plate_number: Option<String>,
    pub opened_at: i64,
    pub customer_complaint: String,
    pub status: ServiceVisitStatus,
    pub total_fils: i64,
}

#[derive(Debug)]
pub struct ServiceVisitDirectoryApplicationError(pub DatabaseError);

/// The filter as the directory query takes it: `ACTIVE`, `ALL`, or the
/// stored text of the one status it selects.
pub open spec fn filter_text(filter: ServiceVisitDirectoryStatusFilter) -> Seq<char> {
    match filter {
        ServiceVisitDirectoryStatusFilter::Active => "ACTIVE"@,
        ServiceVisitDirectoryStatusFilter::All => "ALL"@,
        ServiceVisitDirectoryStatusFilter::Open => visit_status_text(ServiceVisitStatus::Open),
        ServiceVisitDirectoryStatusFilter::ReadyForPickup => visit_status_text(
            ServiceVisitStatus::ReadyForPickup,
        ),
        ServiceVisitDirectoryStatusFilter::Closed => visit_status_text(ServiceVisitStatus::Closed),
        ServiceVisitDirectoryStatusFilter::Cancelled => visit_status_text(
            ServiceVisitStatus::Cancelled,
        ),
    }
}

pub fn filter_name(filter: ServiceVisitDirectoryStatusFilter) -> (r: &'static str)
    ensures
        r@ == filter_text(filter),
{
    match filter {
        ServiceVisitDirectoryStatusFilter::Active => "ACTIVE",
        ServiceVisitDirectoryStatusFilter::All => "ALL",
        ServiceVisitDirectoryStatusFilter::Open => "OPEN",
        ServiceVisitDirectoryStatusFilter::ReadyForPickup => "READY_FOR_PICKUP",
        ServiceVisitDirectoryStatusFilter::Closed => "CLOSED",
        ServiceVisitDirectoryStatusFilter::Cancelled => "CANCELLED",
    }
}


/// Each single-status filter hands the directory query the stored text of
/// that same status, which reads back as that status; `Active` and `All`
/// name no single status.
pub proof fn single_status_filters_select_their_own_status()
    ensures
        filter_text(ServiceVisitDirectoryStatusFilter::Open) == visit_status_text(
            ServiceVisitStatus::Open,
        ),
        filter_text(ServiceVisitDirectoryStatusFilter::ReadyForPickup) == visit_status_text(
            ServiceVisitStatus::ReadyForPickup,
        ),
        filter_text(ServiceVisitDirectoryStatusFilter::Closed) == visit_status_text(
            ServiceVisitStatus::Closed,
        ),
        filter_text(ServiceVisitDirectoryStatusFilter::Cancelled) == visit_status_text(
            ServiceVisitStatus::Cancelled,
        ),
        visit_status_from_text(filter_text(ServiceVisitDirectoryStatusFilter::Open)) == Some(
            ServiceVisitStatus::Open,
        ),
        visit_status_from_text(filter_text(ServiceVisitDirectoryStatusFilter::ReadyForPickup))
            == Some(ServiceVisitStatus::ReadyForPickup),
        visit_status_from_text(filter_text(ServiceVisitDirectoryStatusFilter::Closed)) == Some(
            ServiceVisitStatus::Closed,
        ),
        visit_status_from_text(filter_text(ServiceVisitDirectoryStatusFilter::Cancelled)) == Some(
            ServiceVisitStatus::Cancelled,
        ),
        visit_status_from_text(filter_text(ServiceVisitDirectoryStatusFilter::Active)) is None,
        visit_status_from_text(filter_text(ServiceVisitDirectoryStatusFilter::All)) is None,
{
    visit_status_text_round_trip(ServiceVisitStatus::Open);
    visit_status_text_round_trip(ServiceVisitStatus::ReadyForPickup);
    visit_status_text_round_trip(ServiceVisitStatus::Closed);
    visit_status_text_round_trip(ServiceVisitStatus::Cancelled);
    reveal_strlit("ACTIVE");
    reveal_strlit("ALL");
    reveal_strlit("OPEN");
    reveal_strlit("READY_FOR_PICKUP");
    reveal_strlit("CLOSED");
    reveal_strlit("CANCELLED");
    assert("ACTIVE"@[0] != "CLOSED"@[0]);
    assert("ACTIVE"@.len() != "OPEN"@.len());
    assert("ACTIVE"@.len() != "READY_FOR_PICKUP"@.len());
    assert("ACTIVE"@.len() != "CANCELLED"@.len());
    assert("ALL"@.len() != "OPEN"@.len());
    assert("ALL"@.len() != "READY_FOR_PICKUP"@.len());
    assert("ALL"@.len() != "CLOSED"@.len());
    assert("ALL"@.len() != "CANCELLED"@.len());
}
} // verus!

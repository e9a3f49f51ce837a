//! Looking up customers and their motorcycles when a visit is opened.

use vstd::prelude::*;

use crate::application::DatabaseError;

use crate::storage::{str_eq, visit_status_text};
use crate::domain::service_visit::ServiceVisitStatus;

verus! {

pub const DEFAULT_CUSTOMER_SEARCH_LIMIT: u32 = 25;

pub const MAX_CUSTOMER_SEARCH_LIMIT: u32 = 100;

#[derive(Debug, Clone, PartialEq, Eq)]
pub struct SearchCustomersInput {
    pub query: String,
    pub limit: Option<u32>,
}

#[derive(Debug, Clone, PartialEq, Eq)]
pub struct CustomerSummary {
    pub id: i64,
    pub name: String,
    pub phone: String,
}

#[derive(Debug, Clone, Copy, PartialEq, Eq)]
pub enum ActiveServiceVisitStatus {
    Open,
    ReadyForPickup,
}

#[derive(Debug, Clone, PartialEq, Eq)]
pub struct CustomerMotorcycleLookup {
    pub id: i64,
    pub make_name: String,
    pub model: String,
    pub year: Option<i64>,
    pub color_name: String,
    pub plate_code: Option<String>,
    pub plate_number: Option<i64>,
    pub vin: Option<String>,
    pub chassis_number: Option<String>,
    pub active_service_visit_id: Option<i64>,
    pub active_service_visit_status: Option<ActiveServiceVisitStatus>,
}

#[derive(Debug)]
pub enum ServiceVisitLookupError {
    CustomerNotFound(i64),
    Database(DatabaseError),
}

impl ActiveServiceVisitStatus {
    /// The status of an active visit from its stored text: only an open
    /// visit or one ready for pickup is active.
    pub fn from_stored(value: &str) -> (r: Option<Self>)
        ensures
            value@ == visit_status_text(ServiceVisitStatus::Open) ==> r == Some(
                ActiveServiceVisitStatus::Open,
            ),
            value@ != visit_status_text(ServiceVisitStatus::Open) && value@ == visit_status_text(
                ServiceVisitStatus::ReadyForPickup,
            ) ==> r == Some(ActiveServiceVisitStatus::ReadyForPickup),
            value@ != visit_status_text(ServiceVisitStatus::Open) && value@ != visit_status_text(
                ServiceVisitStatus::ReadyForPickup,
            ) ==> r.is_none(),
    {
        if str_eq(value, "OPEN") {
            Some(ActiveServiceVisitStatus::Open)
        } else if str_eq(value, "READY_FOR_PICKUP") {
            Some(ActiveServiceVisitStatus::ReadyForPickup)
        } else {
            None
        }
    }
}

} // verus!

//! The workshop's dashboard for one local calendar day.

use vstd::prelude::*;

use crate::application::DatabaseError;

use crate::domain::service_visit::ServiceVisitStatus;
use crate::storage::{parse_visit_status, visit_status_from_text};

verus! {

pub const DASHBOARD_LIST_LIMIT: i64 = 5;

/// The longest local day, across a daylight-saving change, in milliseconds.
pub const MAX_LOCAL_DAY_MILLISECONDS: i64 = 26 * 60 * 60 * 1_000;

#[derive(Debug, Clone, Copy, PartialEq, Eq)]
pub struct DashboardDayRange {
    pub start_ms: i64,
    pub end_ms: i64,
}

#[derive(Debug, Clone, PartialEq, Eq)]
pub struct Dashboard {
    pub summary: DashboardSummary,
    pub recent_service_visits: Vec<DashboardServiceVisit>,
    pub recent_invoices: Vec<DashboardInvoice>,
    pub inventory_alerts: Vec<DashboardInventoryAlert>,
}

#[derive(Debug, Clone, PartialEq, Eq)]
pub struct DashboardSummary {
    pub active_service_visits: i64,
    pub ready_for_pickup_visits: i64,
    pub customer_count: i64,
    pub motorcycle_count: i64,
    pub low_stock_item_count: i64,
    pub negative_stock_item_count: i64,
    pub issued_invoice_count_today: i64,
    pub issued_invoice_value_today_fils: i64,
}

#[derive(Debug, Clone, PartialEq, Eq)]
pub struct DashboardServiceVisit {
    pub id: i64,
    pub customer_name: String,
    pub motorcycle: String,
    pub plate_number: Option<String>,
    pub opened_at: i64,
    pub status: ServiceVisitStatus,
    pub complaint: String,
}

#[derive(Debug, Clone, PartialEq, Eq)]
pub struct DashboardInvoice {
    pub id: i64,
    pub invoice_number: String,
    pub issued_at: i64,
    pub customer_name: String,
    pub motorcycle: String,
    pub total_fils: i64,
}

#[derive(Debug, Clone, PartialEq, Eq)]
pub struct DashboardInventoryAlert {
    pub id: i64,
    pub item_name: String,
    pub sku: Option<String>,
    pub unit_name: String,
    pub quantity_scale: i64,
    pub current_quantity: i64,
    pub minimum_stock_quantity: i64,
    pub negative_stock: bool,
}

#[derive(Debug)]
pub enum DashboardApplicationError {
    InvalidDayRange,
    Database(DatabaseError),
}

/// A day starts at a non-negative time and lasts more than nothing and at
/// most 26 hours.
pub open spec fn valid_day_range(day: DashboardDayRange) -> bool {
    day.start_ms >= 0 && day.end_ms - day.start_ms > 0 && day.end_ms - day.start_ms
        <= MAX_LOCAL_DAY_MILLISECONDS
}

/// `rusqlite::Error::InvalidQuery`, the error a row with unreadable contents
/// is reported as. Building the variant is all the call does.
#[verifier::external_body]
fn invalid_query() -> rusqlite::Error {
    rusqlite::Error::InvalidQuery
}

/// The failure a stored row with unreadable contents is reported as.
pub(crate) fn invalid_query_error() -> DatabaseError {
    DatabaseError::from_rusqlite(&invalid_query())
}

impl DashboardDayRange {
    /// Refuses a day range the dashboard cannot summarise.
    pub fn check(&self) -> (r: Result<(), DashboardApplicationError>)
        ensures
            valid_day_range(*self) <==> r is Ok,
            !valid_day_range(*self) ==> r matches Err(DashboardApplicationError::InvalidDayRange),
    {
        let duration = self.end_ms.checked_sub(self.start_ms);
        let valid_duration = match duration {
            Some(value) => value > 0 && value <= MAX_LOCAL_DAY_MILLISECONDS,
            None => false,
        };
        if self.start_ms < 0 || !valid_duration {
            return Err(DashboardApplicationError::InvalidDayRange);
        }
        Ok(())
    }
}

impl DashboardServiceVisit {
    /// A recent visit as the dashboard lists it; a stored status that is not
    /// one of the four is a database error.
    pub fn from_stored(
        id: i64,
        customer_name: String,
        motorcycle: String,
        plate_number: Option<String>,
        opened_at: i64,
        status: &str,
        complaint: String,
    ) -> (r: Result<Self, DashboardApplicationError>)
        ensures
            match visit_status_from_text(status@) {
                Some(s) => r matches Ok(v) && v.status == s && v.id == id && v.customer_name
                    == customer_name && v.motorcycle == motorcycle && v.plate_number
                    == plate_number && v.opened_at == opened_at && v.complaint == complaint,
                None => r matches Err(DashboardApplicationError::Database(_)),
            },
    {
        match parse_visit_status(status) {
            Some(status) => Ok(
                DashboardServiceVisit {
                    id,
                    customer_name,
                    motorcycle,
                    plate_number,
                    opened_at,
                    status,
                    complaint,
                },
            ),
            None => Err(DashboardApplicationError::Database(invalid_query_error())),
        }
    }
}

impl DashboardInventoryAlert {
    /// An item at or below its minimum stock; it is flagged as negative stock
    /// when the recorded quantity is below zero.
    pub fn from_stock(
        id: i64,
        item_name: String,
        sku: Option<String>,
        unit_name: String,
        quantity_scale: i64,
        current_quantity: i64,
        minimum_stock_quantity: i64,
    ) -> (r: Self)
        ensures
            r.negative_stock == (current_quantity < 0),
            r.id == id && r.item_name == item_name && r.sku == sku && r.unit_name == unit_name,
            r.quantity_scale == quantity_scale && r.current_quantity == current_quantity
                && r.minimum_stock_quantity == minimum_stock_quantity,
    {
        DashboardInventoryAlert {
            id,
            item_name,
            sku,
            unit_name,
            quantity_scale,
            current_quantity,
            minimum_stock_quantity,
            negative_stock: current_quantity < 0,
        }
    }
}

} // verus!

//! The details page of a customer: the customer, their motorcycles and their
//! service history.

use vstd::prelude::*;

use crate::application::DatabaseError;

verus! {

pub const CUSTOMER_DETAILS_MOTORCYCLE_LIMIT: i64 = 100;

pub const CUSTOMER_DETAILS_SERVICE_HISTORY_LIMIT: i64 = 100;

#[derive(Debug, Clone, Copy, PartialEq, Eq)]
pub struct LoadCustomerDetailsInput {
    pub customer_id: i64,
}

#[derive(Debug, Clone, PartialEq, Eq)]
pub struct CustomerDetails {
    pub id: i64,
    pub name: String,
    pub phone: String,
    pub motorcycles: Vec<CustomerDetailsMotorcycle>,
    pub service_history: Vec<CustomerServiceHistoryEntry>,
}

#[derive(Debug, Clone, PartialEq, Eq)]
pub struct CustomerDetailsMotorcycle {
    pub id: i64,
    pub make_name: String,
    pub model: String,
    pub year: Option<i64>,
    pub plate_number: Option<String>,
    pub vin: Option<String>,
    pub chassis_number: Option<String>,
    pub color_name: String,
}

#[derive(Debug, Clone, PartialEq, Eq)]
pub struct CustomerServiceHistoryEntry {
    pub id: i64,
    pub motorcycle_id: i64,
    pub opened_at: i64,
    pub odometer_km: Option<i64>,
    pub customer_complaint: String,
    pub status: String,
    pub total_fils: i64,
}

#[derive(Debug)]
pub enum CustomerDetailsApplicationError {
    Database(DatabaseError),
}

} // verus!

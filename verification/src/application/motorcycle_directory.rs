//! The directory of registered motorcycles and the details of one of them.

use vstd::prelude::*;

use crate::application::DatabaseError;

use crate::domain::service_visit::ServiceVisitStatus;

verus! {

pub const DEFAULT_MOTORCYCLE_DIRECTORY_LIMIT: u32 = 50;

pub const MAX_MOTORCYCLE_DIRECTORY_LIMIT: u32 = 100;

pub const MOTORCYCLE_HISTORY_LIMIT: i64 = 100;

#[derive(Debug, Clone, PartialEq, Eq)]
pub struct SearchMotorcycleDirectoryInput {
    pub query: String,
    pub limit: Option<u32>,
}

#[derive(Debug, Clone, Copy, PartialEq, Eq)]
pub struct LoadMotorcycleDetailsInput {
    pub motorcycle_id: i64,
}

#[derive(Debug, Clone, PartialEq, Eq)]
pub struct MotorcycleDirectoryEntry {
    pub id: i64,
    pub make_name: String,
    pub model: String,
    pub year: Option<i64>,
    pub color_name: String,
    pub plate_number: Option<String>,
    pub vin: Option<String>,
    pub chassis_number: Option<String>,
    pub owner_customer_id: i64,
    pub owner_name: String,
    pub owner_phone: String,
    pub latest_service_visit_at: Option<i64>,
    pub active_service_visit_id: Option<i64>,
    pub active_service_visit_status: Option<ServiceVisitStatus>,
}

#[derive(Debug, Clone, PartialEq, Eq)]
pub struct MotorcycleDetails {
    pub id: i64,
    pub make_name: String,
    pub model: String,
    pub year: Option<i64>,
    pub color_name: String,
    pub plate_number: Option<String>,
    pub vin: Option<String>,
    pub chassis_number: Option<String>,
    pub owner_customer_id: i64,
    pub owner_name: String,
    pub owner_phone: String,
    pub active_service_visit_id: Option<i64>,
    pub active_service_visit_status: Option<ServiceVisitStatus>,
    pub service_history: Vec<MotorcycleServiceHistoryEntry>,
}

#[derive(Debug, Clone, PartialEq, Eq)]
pub struct MotorcycleServiceHistoryEntry {
    pub id: i64,
    pub opened_at: i64,
    pub odometer_km: Option<i64>,
    pub customer_complaint: String,
    pub status: ServiceVisitStatus,
    pub total_fils: i64,
}

#[derive(Debug)]
pub struct MotorcycleDirectoryApplicationError(pub DatabaseError);

} // verus!

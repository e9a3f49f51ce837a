//! The workspace of one service visit: opening it, recording the work,
//! moving it through its lifecycle, and adding or voiding parts.

use vstd::prelude::*;

use crate::application::DatabaseError;

use crate::domain::service_visit::{
    cancel_outcome, close_outcome, details_outcome, lemma_canonical_text_accepted, open_outcome,
    open_outcome_of, ready_outcome, reopen_outcome, well_formed, NewServiceVisitInput,
    ServiceVisit, ServiceVisitDetailsInput, ServiceVisitStatus, ServiceVisitTextField,
    ServiceVisitValidationError, ServiceVisitView,
};
use crate::domain::service_visit_part::{
    part_outcome, void_outcome, NewServiceVisitPartInput, ServiceVisitPart,
    ServiceVisitPartStatus, ServiceVisitPartValidationError, ServiceVisitPartView,
};
use crate::text::opt_chars;

verus! {

#[derive(Debug, Clone, PartialEq, Eq)]
pub struct ServiceVisitWorkspace {
    pub visit: ServiceVisitDetails,
    pub owner: ServiceVisitOwner,
    pub motorcycle: ServiceVisitMotorcycle,
    pub parts: Vec<ServiceVisitPartHistoryLine>,
}

#[derive(Debug, Clone, PartialEq, Eq)]
pub struct ServiceVisitDetails {
    pub id: i64,
    pub motorcycle_id: i64,
    pub owner_customer_id: i64,
    pub status: ServiceVisitStatus,
    pub opened_at: i64,
    pub completed_at: Option<i64>,
    pub closed_at: Option<i64>,
    pub cancelled_at: Option<i64>,
    pub odometer_km: Option<i64>,
    pub customer_complaint: String,
    pub diagnosis: Option<String>,
    pub work_performed: Option<String>,
    pub labor_charge_fils: i64,
    pub cancellation_reason: Option<String>,
    pub notes: Option<String>,
    pub created_at: i64,
    pub updated_at: i64,
}

#[derive(Debug, Clone, PartialEq, Eq)]
pub struct ServiceVisitOwner {
    pub id: i64,
    pub name: String,
    pub phone: String,
}

#[derive(Debug, Clone, PartialEq, Eq)]
pub struct ServiceVisitMotorcycle {
    pub id: i64,
    pub make_name: String,
    pub model: String,
    pub year: Option<i64>,
    pub plate_code: Option<String>,
    pub plate_number: Option<i64>,
    pub vin: Option<String>,
    pub chassis_number: Option<String>,
    pub color_name: String,
}

#[derive(Debug, Clone, PartialEq, Eq)]
pub struct ServiceVisitPartHistoryLine {
    pub id: i64,
    pub service_visit_id: i64,
    pub inventory_item_id: i64,
    pub item_name: String,
    pub unit_name: String,
    pub quantity: i64,
    pub quantity_scale: i64,
    pub unit_price_fils: i64,
    pub line_total_fils: i64,
    pub status: ServiceVisitPartStatus,
    pub voided_at: Option<i64>,
    pub void_reason: Option<String>,
    pub created_at: i64,
}

#[derive(Debug, Clone, PartialEq, Eq)]
pub struct InventoryItemSelection {
    pub id: i64,
    pub item_name: String,
    pub sku: Option<String>,
    pub unit_id: i64,
    pub unit_name: String,
    pub quantity_scale: i64,
    pub default_selling_price_fils: i64,
    pub current_quantity: i64,
}

#[derive(Debug, PartialEq, Eq)]
pub struct CreateServiceVisitInput {
    pub motorcycle_id: i64,
    pub opened_at: i64,
    pub odometer_km: Option<i64>,
    pub customer_complaint: String,
    pub notes: Option<String>,
    pub created_at: i64,
}

#[derive(Debug, PartialEq, Eq)]
pub struct UpdateServiceVisitWorkInput {
    pub service_visit_id: i64,
    pub diagnosis: Option<String>,
    pub work_performed: Option<String>,
    pub labor_charge_fils: i64,
    pub notes: Option<String>,
    pub odometer_km: Option<i64>,
    pub updated_at: i64,
}

#[derive(Debug, PartialEq, Eq)]
pub struct AddServiceVisitPartInput {
    pub service_visit_id: i64,
    pub inventory_item_id: i64,
    pub quantity: i64,
    pub unit_price_fils: i64,
    pub created_at: i64,
}

#[derive(Debug, PartialEq, Eq)]
pub struct VoidServiceVisitPartInput {
    pub service_visit_id: i64,
    pub service_visit_part_id: i64,
    pub voided_at: i64,
    pub reason: Option<String>,
}

#[derive(Debug, PartialEq, Eq)]
pub struct MarkServiceVisitReadyForPickupInput {
    pub service_visit_id: i64,
    pub completed_at: i64,
    pub updated_at: i64,
}

#[derive(Debug, PartialEq, Eq)]
pub struct ReopenServiceVisitInput {
    pub service_visit_id: i64,
    pub updated_at: i64,
}

#[derive(Debug, PartialEq, Eq)]
pub struct CloseServiceVisitInput {
    pub service_visit_id: i64,
    pub closed_at: i64,
    pub updated_at: i64,
}

#[derive(Debug, PartialEq, Eq)]
pub struct CancelServiceVisitInput {
    pub service_visit_id: i64,
    pub cancelled_at: i64,
    pub reason: String,
    pub updated_at: i64,
}

#[derive(Debug)]
pub enum ServiceVisitWorkspaceError {
    MotorcycleNotFound(i64),
    ActiveServiceVisitExists(i64),
    ServiceVisitNotFound(i64),
    InventoryItemNotFound(i64),
    ServiceVisitPartNotFound { service_visit_id: i64, service_visit_part_id: i64 },
    VisitDoesNotAllowPartChanges(ServiceVisitStatus),
    VisitValidation(ServiceVisitValidationError),
    PartValidation(ServiceVisitPartValidationError),
    Database(DatabaseError),
}

/// One step of a visit's lifecycle, with what the step needs.
#[derive(Debug, PartialEq, Eq)]
pub enum LifecycleStep {
    MarkReadyForPickup { completed_at: i64 },
    Reopen,
    Close { closed_at: i64 },
    Cancel { cancelled_at: i64, reason: String },
}

/// What a lifecycle step makes of a visit.
pub open spec fn step_outcome(v: ServiceVisitView, step: LifecycleStep) -> Result<
    ServiceVisitView,
    ServiceVisitValidationError,
> {
    match step {
        LifecycleStep::MarkReadyForPickup { completed_at } => ready_outcome(v, completed_at),
        LifecycleStep::Reopen => reopen_outcome(v),
        LifecycleStep::Close { closed_at } => close_outcome(v, closed_at),
        LifecycleStep::Cancel { cancelled_at, reason } => cancel_outcome(
            v,
            cancelled_at,
            reason@,
        ),
    }
}

/// The visit as it is stored.
pub open spec fn stored_view(row: ServiceVisitDetails) -> ServiceVisitView {
    ServiceVisitView {
        motorcycle_id: row.motorcycle_id,
        owner_customer_id: row.owner_customer_id,
        status: row.status,
        opened_at: row.opened_at,
        completed_at: row.completed_at,
        closed_at: row.closed_at,
        cancelled_at: row.cancelled_at,
        odometer_km: row.odometer_km,
        customer_complaint: row.customer_complaint@,
        diagnosis: opt_chars(row.diagnosis),
        work_performed: opt_chars(row.work_performed),
        labor_charge_fils: row.labor_charge_fils,
        cancellation_reason: opt_chars(row.cancellation_reason),
        notes: opt_chars(row.notes),
    }
}

/// Replays a stored visit through the domain rules: it is opened, its work
/// is recorded, and it is taken through the steps its status implies.
pub open spec fn restore_outcome(s: ServiceVisitView) -> Result<
    ServiceVisitView,
    ServiceVisitValidationError,
> {
    match open_outcome_of(
        s.motorcycle_id,
        s.owner_customer_id,
        s.opened_at,
        s.odometer_km,
        s.customer_complaint,
        s.notes,
    ) {
        Err(e) => Err(e),
        Ok(opened) => match details_outcome(
            opened,
            s.diagnosis,
            s.work_performed,
            s.labor_charge_fils,
            s.notes,
            s.odometer_km,
        ) {
            Err(e) => Err(e),
            Ok(worked) => match s.status {
                ServiceVisitStatus::Open => Ok(worked),
                ServiceVisitStatus::ReadyForPickup => match s.completed_at {
                    None => Err(ServiceVisitValidationError::InvalidTimestamp),
                    Some(c) => ready_outcome(worked, c),
                },
                ServiceVisitStatus::Closed => match s.completed_at {
                    None => Err(ServiceVisitValidationError::InvalidTimestamp),
                    Some(c) => match ready_outcome(worked, c) {
                        Err(e) => Err(e),
                        Ok(ready) => match s.closed_at {
                            None => Err(ServiceVisitValidationError::InvalidTimestamp),
                            Some(x) => close_outcome(ready, x),
                        },
                    },
                },
                ServiceVisitStatus::Cancelled => match s.cancelled_at {
                    None => Err(ServiceVisitValidationError::InvalidTimestamp),
                    Some(x) => match s.cancellation_reason {
                        None => Err(ServiceVisitValidationError::BlankCancellationReason),
                        Some(r) => cancel_outcome(worked, x, r),
                    },
                },
            },
        },
    }
}

/// A visit that the domain rules produced is restored from storage exactly
/// as it was stored.
pub proof fn restoring_a_stored_visit_reproduces_it(v: ServiceVisitView)
    requires
        well_formed(v),
    ensures
        restore_outcome(v) == Ok::<ServiceVisitView, ServiceVisitValidationError>(v),
{
    lemma_canonical_text_accepted(
        v.customer_complaint,
        4000,
        ServiceVisitTextField::CustomerComplaint,
        ServiceVisitValidationError::BlankComplaint,
    );
    if let Some(n) = v.notes {
        lemma_canonical_text_accepted(
            n,
            4000,
            ServiceVisitTextField::Notes,
            ServiceVisitValidationError::BlankComplaint,
        );
    }
    if let Some(d) = v.diagnosis {
        lemma_canonical_text_accepted(
            d,
            4000,
            ServiceVisitTextField::Diagnosis,
            ServiceVisitValidationError::BlankComplaint,
        );
    }
    if let Some(w) = v.work_performed {
        lemma_canonical_text_accepted(
            w,
            4000,
            ServiceVisitTextField::WorkPerformed,
            ServiceVisitValidationError::BlankComplaint,
        );
    }
    if let Some(r) = v.cancellation_reason {
        lemma_canonical_text_accepted(
            r,
            1000,
            ServiceVisitTextField::CancellationReason,
            ServiceVisitValidationError::BlankCancellationReason,
        );
    }
}

/// Rebuilds the domain visit from its stored row.
pub fn restore_visit(row: &ServiceVisitDetails) -> (r: Result<
    ServiceVisit,
    ServiceVisitValidationError,
>)
    ensures
        match restore_outcome(stored_view(*row)) {
            Ok(v) => r matches Ok(visit) && visit@ == v,
            Err(e) => r matches Err(f) && f == e,
        },
{
    let mut visit = ServiceVisit::open(
        NewServiceVisitInput {
            motorcycle_id: row.motorcycle_id,
            owner_customer_id: row.owner_customer_id,
            opened_at: row.opened_at,
            odometer_km: row.odometer_km,
            customer_complaint: row.customer_complaint.clone(),
            notes: row.notes.clone(),
        },
    )?;
    visit.update_details(
        ServiceVisitDetailsInput {
            diagnosis: row.diagnosis.clone(),
            work_performed: row.work_performed.clone(),
            labor_charge_fils: row.labor_charge_fils,
            notes: row.notes.clone(),
            odometer_km: row.odometer_km,
        },
    )?;
    match row.status {
        ServiceVisitStatus::Open => {},
        ServiceVisitStatus::ReadyForPickup => {
            let completed_at = match row.completed_at {
                Some(value) => value,
                None => {
                    return Err(ServiceVisitValidationError::InvalidTimestamp);
                },
            };
            visit.mark_ready_for_pickup(completed_at)?;
        },
        ServiceVisitStatus::Closed => {
            let completed_at = match row.completed_at {
                Some(value) => value,
                None => {
                    return Err(ServiceVisitValidationError::InvalidTimestamp);
                },
            };
            visit.mark_ready_for_pickup(completed_at)?;
            let closed_at = match row.closed_at {
                Some(value) => value,
                None => {
                    return Err(ServiceVisitValidationError::InvalidTimestamp);
                },
            };
            visit.close(closed_at)?;
        },
        ServiceVisitStatus::Cancelled => {
            let cancelled_at = match row.cancelled_at {
                Some(value) => value,
                None => {
                    return Err(ServiceVisitValidationError::InvalidTimestamp);
                },
            };
            let reason = match &row.cancellation_reason {
                Some(value) => value.clone(),
                None => {
                    return Err(ServiceVisitValidationError::BlankCancellationReason);
                },
            };
            visit.cancel(cancelled_at, reason)?;
        },
    }
    Ok(visit)
}

/// Times of changes are never negative.
pub fn check_change_time(at: i64) -> (r: Result<(), ServiceVisitWorkspaceError>)
    ensures
        at >= 0 ==> r is Ok,
        at < 0 ==> (r matches Err(ServiceVisitWorkspaceError::VisitValidation(e)) && e
            == ServiceVisitValidationError::InvalidTimestamp),
{
    if at < 0 {
        return Err(
            ServiceVisitWorkspaceError::VisitValidation(ServiceVisitValidationError::InvalidTimestamp),
        );
    }
    Ok(())
}

/// The visit to open for a motorcycle: the motorcycle must exist (its owner
/// is known) and must have no visit that is still open or ready for pickup.
pub fn plan_service_visit(
    input: CreateServiceVisitInput,
    owner_customer_id: Option<i64>,
    active_visit_id: Option<i64>,
) -> (r: Result<ServiceVisit, ServiceVisitWorkspaceError>)
    ensures
        input.created_at < 0 ==> (r matches Err(ServiceVisitWorkspaceError::VisitValidation(e)) && e
            == ServiceVisitValidationError::InvalidTimestamp),
        input.created_at >= 0 && owner_customer_id.is_none() ==> (r matches Err(
            ServiceVisitWorkspaceError::MotorcycleNotFound(id),
        ) && id == input.motorcycle_id),
        input.created_at >= 0 && owner_customer_id.is_some() && active_visit_id.is_some() ==> (r matches Err(
            ServiceVisitWorkspaceError::ActiveServiceVisitExists(id),
        ) && id == input.motorcycle_id),
        input.created_at >= 0 && owner_customer_id.is_some() && active_visit_id.is_none()
            ==> match open_outcome_of(
            input.motorcycle_id,
            owner_customer_id.unwrap(),
            input.opened_at,
            input.odometer_km,
            input.customer_complaint@,
            opt_chars(input.notes),
        ) {
            Ok(v) => r matches Ok(visit) && visit@ == v && well_formed(visit@),
            Err(e) => r matches Err(ServiceVisitWorkspaceError::VisitValidation(f)) && f == e,
        },
{
    check_change_time(input.created_at)?;
    let owner_customer_id = match owner_customer_id {
        Some(id) => id,
        None => {
            return Err(ServiceVisitWorkspaceError::MotorcycleNotFound(input.motorcycle_id));
        },
    };
    if active_visit_id.is_some() {
        return Err(ServiceVisitWorkspaceError::ActiveServiceVisitExists(input.motorcycle_id));
    }
    match ServiceVisit::open(
        NewServiceVisitInput {
            motorcycle_id: input.motorcycle_id,
            owner_customer_id,
            opened_at: input.opened_at,
            odometer_km: input.odometer_km,
            customer_complaint: input.customer_complaint,
            notes: input.notes,
        },
    ) {
        Ok(visit) => Ok(visit),
        Err(e) => Err(ServiceVisitWorkspaceError::VisitValidation(e)),
    }
}

/// The visit with its work updated, from the visit as stored.
pub fn plan_work_update(input: UpdateServiceVisitWorkInput, stored: Option<&ServiceVisitDetails>) -> (r:
    Result<ServiceVisit, ServiceVisitWorkspaceError>)
    ensures
        input.updated_at < 0 ==> (r matches Err(ServiceVisitWorkspaceError::VisitValidation(e)) && e
            == ServiceVisitValidationError::InvalidTimestamp),
        input.updated_at >= 0 && stored.is_none() ==> (r matches Err(
            ServiceVisitWorkspaceError::ServiceVisitNotFound(id),
        ) && id == input.service_visit_id),
        input.updated_at >= 0 && stored.is_some() ==> match restore_outcome(
            stored_view(*stored.unwrap()),
        ) {
            Err(e) => r matches Err(ServiceVisitWorkspaceError::VisitValidation(f)) && f == e,
            Ok(v) => match details_outcome(
                v,
                opt_chars(input.diagnosis),
                opt_chars(input.work_performed),
                input.labor_charge_fils,
                opt_chars(input.notes),
                input.odometer_km,
            ) {
                Ok(w) => r matches Ok(visit) && visit@ == w,
                Err(e) => r matches Err(ServiceVisitWorkspaceError::VisitValidation(f)) && f == e,
            },
        },
{
    check_change_time(input.updated_at)?;
    let stored = match stored {
        Some(row) => row,
        None => {
            return Err(ServiceVisitWorkspaceError::ServiceVisitNotFound(input.service_visit_id));
        },
    };
    let mut visit = match restore_visit(stored) {
        Ok(visit) => visit,
        Err(e) => {
            return Err(ServiceVisitWorkspaceError::VisitValidation(e));
        },
    };
    match visit.update_details(
        ServiceVisitDetailsInput {
            diagnosis: input.diagnosis,
            work_performed: input.work_performed,
            labor_charge_fils: input.labor_charge_fils,
            notes: input.notes,
            odometer_km: input.odometer_km,
        },
    ) {
        Ok(()) => Ok(visit),
        Err(e) => Err(ServiceVisitWorkspaceError::VisitValidation(e)),
    }
}

/// The visit after one lifecycle step, from the visit as stored.
pub fn plan_lifecycle_step(
    service_visit_id: i64,
    updated_at: i64,
    stored: Option<&ServiceVisitDetails>,
    step: LifecycleStep,
) -> (r: Result<ServiceVisit, ServiceVisitWorkspaceError>)
    ensures
        updated_at < 0 ==> (r matches Err(ServiceVisitWorkspaceError::VisitValidation(e)) && e
            == ServiceVisitValidationError::InvalidTimestamp),
        updated_at >= 0 && stored.is_none() ==> (r matches Err(
            ServiceVisitWorkspaceError::ServiceVisitNotFound(id),
        ) && id == service_visit_id),
        updated_at >= 0 && stored.is_some() ==> match restore_outcome(
            stored_view(*stored.unwrap()),
        ) {
            Err(e) => r matches Err(ServiceVisitWorkspaceError::VisitValidation(f)) && f == e,
            Ok(v) => match step_outcome(v, step) {
                Ok(w) => r matches Ok(visit) && visit@ == w,
                Err(e) => r matches Err(ServiceVisitWorkspaceError::VisitValidation(f)) && f == e,
            },
        },
{
    check_change_time(updated_at)?;
    let stored = match stored {
        Some(row) => row,
        None => {
            return Err(ServiceVisitWorkspaceError::ServiceVisitNotFound(service_visit_id));
        },
    };
    let mut visit = match restore_visit(stored) {
        Ok(visit) => visit,
        Err(e) => {
            return Err(ServiceVisitWorkspaceError::VisitValidation(e));
        },
    };
    let result = match step {
        LifecycleStep::MarkReadyForPickup { completed_at } => visit.mark_ready_for_pickup(
            completed_at,
        ),
        LifecycleStep::Reopen => visit.reopen(),
        LifecycleStep::Close { closed_at } => visit.close(closed_at),
        LifecycleStep::Cancel { cancelled_at, reason } => visit.cancel(cancelled_at, reason),
    };
    match result {
        Ok(()) => Ok(visit),
        Err(e) => Err(ServiceVisitWorkspaceError::VisitValidation(e)),
    }
}

/// Parts can be added or voided while a visit is open or ready for pickup.
pub open spec fn allows_part_changes(status: ServiceVisitStatus) -> bool {
    status == ServiceVisitStatus::Open || status == ServiceVisitStatus::ReadyForPickup
}

pub fn require_part_changes_allowed(status: ServiceVisitStatus) -> (r: Result<
    (),
    ServiceVisitWorkspaceError,
>)
    ensures
        allows_part_changes(status) ==> r is Ok,
        !allows_part_changes(status) ==> (r matches Err(
            ServiceVisitWorkspaceError::VisitDoesNotAllowPartChanges(s),
        ) && s == status),
{
    if status == ServiceVisitStatus::Open || status == ServiceVisitStatus::ReadyForPickup {
        Ok(())
    } else {
        Err(ServiceVisitWorkspaceError::VisitDoesNotAllowPartChanges(status))
    }
}

/// The part to add to a visit, priced as the request says, in the item's
/// unit and under the item's current name.
pub fn plan_part_addition(
    input: AddServiceVisitPartInput,
    visit_status: Option<ServiceVisitStatus>,
    item: Option<InventoryItemSelection>,
) -> (r: Result<ServiceVisitPart, ServiceVisitWorkspaceError>)
    ensures
        visit_status.is_none() ==> (r matches Err(
            ServiceVisitWorkspaceError::ServiceVisitNotFound(id),
        ) && id == input.service_visit_id),
        visit_status.is_some() && !allows_part_changes(visit_status.unwrap()) ==> (r matches Err(
            ServiceVisitWorkspaceError::VisitDoesNotAllowPartChanges(s),
        ) && s == visit_status.unwrap()),
        visit_status.is_some() && allows_part_changes(visit_status.unwrap()) && item.is_none()
            ==> (r matches Err(ServiceVisitWorkspaceError::InventoryItemNotFound(id)) && id
            == input.inventory_item_id),
        visit_status.is_some() && allows_part_changes(visit_status.unwrap()) && item.is_some()
            ==> match part_outcome(
            NewServiceVisitPartInput {
                service_visit_id: input.service_visit_id,
                inventory_item_id: item.unwrap().id,
                item_name: item.unwrap().item_name,
                unit_name: item.unwrap().unit_name,
                quantity: input.quantity,
                quantity_scale: item.unwrap().quantity_scale,
                unit_price_fils: input.unit_price_fils,
                created_at: input.created_at,
            },
        ) {
            Ok(v) => r matches Ok(part) && part@ == v,
            Err(e) => r matches Err(ServiceVisitWorkspaceError::PartValidation(f)) && f == e,
        },
{
    let status = match visit_status {
        Some(status) => status,
        None => {
            return Err(ServiceVisitWorkspaceError::ServiceVisitNotFound(input.service_visit_id));
        },
    };
    require_part_changes_allowed(status)?;
    let item = match item {
        Some(item) => item,
        None => {
            return Err(ServiceVisitWorkspaceError::InventoryItemNotFound(input.inventory_item_id));
        },
    };
    match ServiceVisitPart::new(
        NewServiceVisitPartInput {
            service_visit_id: input.service_visit_id,
            inventory_item_id: item.id,
            item_name: item.item_name,
            unit_name: item.unit_name,
            quantity: input.quantity,
            quantity_scale: item.quantity_scale,
            unit_price_fils: input.unit_price_fils,
            created_at: input.created_at,
        },
    ) {
        Ok(part) => Ok(part),
        Err(e) => Err(ServiceVisitWorkspaceError::PartValidation(e)),
    }
}

/// The part as it was created, rebuilt from its stored line.
pub open spec fn stored_part_input(line: ServiceVisitPartHistoryLine) -> NewServiceVisitPartInput {
    NewServiceVisitPartInput {
        service_visit_id: line.service_visit_id,
        inventory_item_id: line.inventory_item_id,
        item_name: line.item_name,
        unit_name: line.unit_name,
        quantity: line.quantity,
        quantity_scale: line.quantity_scale,
        unit_price_fils: line.unit_price_fils,
        created_at: line.created_at,
    }
}

/// The voided part: the visit must allow part changes, the part must exist
/// on the visit and still be active; it is rebuilt from its stored line and
/// then voided.
pub fn plan_part_void(
    input: VoidServiceVisitPartInput,
    visit_status: Option<ServiceVisitStatus>,
    stored: Option<ServiceVisitPartHistoryLine>,
) -> (r: Result<ServiceVisitPart, ServiceVisitWorkspaceError>)
    ensures
        visit_status.is_none() ==> (r matches Err(
            ServiceVisitWorkspaceError::ServiceVisitNotFound(id),
        ) && id == input.service_visit_id),
        visit_status.is_some() && !allows_part_changes(visit_status.unwrap()) ==> (r matches Err(
            ServiceVisitWorkspaceError::VisitDoesNotAllowPartChanges(s),
        ) && s == visit_status.unwrap()),
        visit_status.is_some() && allows_part_changes(visit_status.unwrap()) && stored.is_none()
            ==> (r matches Err(
            ServiceVisitWorkspaceError::ServiceVisitPartNotFound {
                service_visit_id,
                service_visit_part_id,
            },
        ) && service_visit_id == input.service_visit_id && service_visit_part_id
            == input.service_visit_part_id),
        visit_status.is_some() && allows_part_changes(visit_status.unwrap()) && stored.is_some()
            && stored.unwrap().status == ServiceVisitPartStatus::Voided ==> (r matches Err(
            ServiceVisitWorkspaceError::PartValidation(e),
        ) && e == ServiceVisitPartValidationError::PartAlreadyVoided),
        visit_status.is_some() && allows_part_changes(visit_status.unwrap()) && stored.is_some()
            && stored.unwrap().status == ServiceVisitPartStatus::Active ==> match part_outcome(
            stored_part_input(stored.unwrap()),
        ) {
            Err(e) => r matches Err(ServiceVisitWorkspaceError::PartValidation(f)) && f == e,
            Ok(p) => match void_outcome(p, input.voided_at, opt_chars(input.reason)) {
                Ok(q) => r matches Ok(part) && part@ == q,
                Err(e) => r matches Err(ServiceVisitWorkspaceError::PartValidation(f)) && f == e,
            },
        },
{
    let status = match visit_status {
        Some(status) => status,
        None => {
            return Err(ServiceVisitWorkspaceError::ServiceVisitNotFound(input.service_visit_id));
        },
    };
    require_part_changes_allowed(status)?;
    let stored = match stored {
        Some(line) => line,
        None => {
            return Err(
                ServiceVisitWorkspaceError::ServiceVisitPartNotFound {
                    service_visit_id: input.service_visit_id,
                    service_visit_part_id: input.service_visit_part_id,
                },
            );
        },
    };
    if stored.status == ServiceVisitPartStatus::Voided {
        return Err(
            ServiceVisitWorkspaceError::PartValidation(
                ServiceVisitPartValidationError::PartAlreadyVoided,
            ),
        );
    }
    let mut part = match ServiceVisitPart::new(
        NewServiceVisitPartInput {
            service_visit_id: stored.service_visit_id,
            inventory_item_id: stored.inventory_item_id,
            item_name: stored.item_name,
            unit_name: stored.unit_name,
            quantity: stored.quantity,
            quantity_scale: stored.quantity_scale,
            unit_price_fils: stored.unit_price_fils,
            created_at: stored.created_at,
        },
    ) {
        Ok(part) => part,
        Err(e) => {
            return Err(ServiceVisitWorkspaceError::PartValidation(e));
        },
    };
    match part.void(input.voided_at, input.reason) {
        Ok(()) => Ok(part),
        Err(e) => Err(ServiceVisitWorkspaceError::PartValidation(e)),
    }
}

} // verus!

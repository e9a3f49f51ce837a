use moto_workshop::application::service_visit_workspace::{
    check_change_time, plan_lifecycle_step, plan_part_addition, plan_part_void, plan_service_visit,
    plan_work_update, require_part_changes_allowed, restore_visit, AddServiceVisitPartInput,
    CreateServiceVisitInput, InventoryItemSelection, LifecycleStep, ServiceVisitDetails,
    ServiceVisitPartHistoryLine, ServiceVisitWorkspaceError, UpdateServiceVisitWorkInput,
    VoidServiceVisitPartInput,
};
use moto_workshop::domain::service_visit::{ServiceVisitStatus, ServiceVisitValidationError};
use moto_workshop::domain::service_visit_part::{ServiceVisitPartStatus, ServiceVisitPartValidationError};

fn create_input() -> CreateServiceVisitInput {
    CreateServiceVisitInput {
        motorcycle_id: 12,
        opened_at: 1_000,
        odometer_km: None,
        customer_complaint: " Brakes squeal ".to_string(),
        notes: None,
        created_at: 1_000,
    }
}

fn stored_row(status: ServiceVisitStatus) -> ServiceVisitDetails {
    let done = status != ServiceVisitStatus::Open && status != ServiceVisitStatus::Cancelled;
    ServiceVisitDetails {
        id: 30,
        motorcycle_id: 12,
        owner_customer_id: 4,
        status,
        opened_at: 1_000,
        completed_at: if done { Some(2_000) } else { None },
        closed_at: if status == ServiceVisitStatus::Closed { Some(3_000) } else { None },
        cancelled_at: if status == ServiceVisitStatus::Cancelled { Some(1_500) } else { None },
        odometer_km: Some(40_000),
        customer_complaint: "Brakes squeal".to_string(),
        diagnosis: Some("Worn pads".to_string()),
        work_performed: if status == ServiceVisitStatus::Open { None } else { Some("Replaced pads".to_string()) },
        labor_charge_fils: 5_000,
        cancellation_reason: if status == ServiceVisitStatus::Cancelled { Some("Owner declined".to_string()) } else { None },
        notes: None,
        created_at: 1_000,
        updated_at: 3_000,
    }
}

fn selection() -> InventoryItemSelection {
    InventoryItemSelection {
        id: 9,
        item_name: "Brake pad".to_string(),
        sku: None,
        unit_id: 1,
        unit_name: "Piece".to_string(),
        quantity_scale: 1,
        default_selling_price_fils: 9_000,
        current_quantity: 4,
    }
}

fn stored_part(status: ServiceVisitPartStatus) -> ServiceVisitPartHistoryLine {
    ServiceVisitPartHistoryLine {
        id: 70,
        service_visit_id: 30,
        inventory_item_id: 9,
        item_name: "Brake pad".to_string(),
        unit_name: "Piece".to_string(),
        quantity: 2,
        quantity_scale: 1,
        unit_price_fils: 9_000,
        line_total_fils: 18_000,
        status,
        voided_at: None,
        void_reason: None,
        created_at: 1_200,
    }
}

#[test]
fn change_times_are_never_negative() {
    assert!(check_change_time(0).is_ok());
    assert!(matches!(
        check_change_time(-1),
        Err(ServiceVisitWorkspaceError::VisitValidation(ServiceVisitValidationError::InvalidTimestamp))
    ));
}

#[test]
fn opening_a_visit_needs_a_motorcycle_without_active_visit() {
    let visit = plan_service_visit(create_input(), Some(4), None).unwrap();
    assert_eq!(visit.owner_customer_id(), 4);
    assert_eq!(visit.customer_complaint(), "Brakes squeal");
    assert!(matches!(
        plan_service_visit(create_input(), None, None),
        Err(ServiceVisitWorkspaceError::MotorcycleNotFound(12))
    ));
    assert!(matches!(
        plan_service_visit(create_input(), Some(4), Some(99)),
        Err(ServiceVisitWorkspaceError::ActiveServiceVisitExists(12))
    ));
    let mut input = create_input();
    input.customer_complaint = String::new();
    assert!(matches!(
        plan_service_visit(input, Some(4), None),
        Err(ServiceVisitWorkspaceError::VisitValidation(ServiceVisitValidationError::BlankComplaint))
    ));
}

#[test]
fn stored_visits_restore_in_every_status() {
    for status in [
        ServiceVisitStatus::Open,
        ServiceVisitStatus::ReadyForPickup,
        ServiceVisitStatus::Closed,
        ServiceVisitStatus::Cancelled,
    ] {
        let row = stored_row(status);
        let visit = restore_visit(&row).unwrap();
        assert_eq!(visit.status(), status);
        assert_eq!(visit.completed_at(), row.completed_at);
        assert_eq!(visit.closed_at(), row.closed_at);
        assert_eq!(visit.cancelled_at(), row.cancelled_at);
        assert_eq!(visit.work_performed(), row.work_performed.as_deref());
        assert_eq!(visit.cancellation_reason(), row.cancellation_reason.as_deref());
        assert_eq!(visit.labor_charge_fils(), 5_000);
    }
}

#[test]
fn inconsistent_stored_visit_is_refused() {
    let mut row = stored_row(ServiceVisitStatus::Closed);
    row.closed_at = None;
    assert!(matches!(restore_visit(&row), Err(ServiceVisitValidationError::InvalidTimestamp)));
    let mut row = stored_row(ServiceVisitStatus::ReadyForPickup);
    row.work_performed = None;
    assert!(matches!(restore_visit(&row), Err(ServiceVisitValidationError::MissingWorkPerformed)));
}

#[test]
fn work_update_applies_to_stored_visit() {
    let row = stored_row(ServiceVisitStatus::Open);
    let input = UpdateServiceVisitWorkInput {
        service_visit_id: 30,
        diagnosis: None,
        work_performed: Some("Bled brakes".to_string()),
        labor_charge_fils: 7_500,
        notes: Some("check again".to_string()),
        odometer_km: Some(40_010),
        updated_at: 2_500,
    };
    let visit = plan_work_update(input, Some(&row)).unwrap();
    assert_eq!(visit.diagnosis(), None);
    assert_eq!(visit.work_performed(), Some("Bled brakes"));
    assert_eq!(visit.labor_charge_fils(), 7_500);
    let input = UpdateServiceVisitWorkInput {
        service_visit_id: 31,
        diagnosis: None,
        work_performed: None,
        labor_charge_fils: 0,
        notes: None,
        odometer_km: None,
        updated_at: 2_500,
    };
    assert!(matches!(plan_work_update(input, None), Err(ServiceVisitWorkspaceError::ServiceVisitNotFound(31))));
}

#[test]
fn work_update_on_closed_visit_is_a_lifecycle_refusal() {
    let row = stored_row(ServiceVisitStatus::Closed);
    let input = UpdateServiceVisitWorkInput {
        service_visit_id: 30,
        diagnosis: None,
        work_performed: Some("x".to_string()),
        labor_charge_fils: 0,
        notes: None,
        odometer_km: None,
        updated_at: 4_000,
    };
    assert!(matches!(
        plan_work_update(input, Some(&row)),
        Err(ServiceVisitWorkspaceError::VisitValidation(ServiceVisitValidationError::TerminalVisitCannotBeEdited))
    ));
}

#[test]
fn lifecycle_steps_from_stored_visits() {
    let ready = stored_row(ServiceVisitStatus::ReadyForPickup);
    let closed = plan_lifecycle_step(30, 3_500, Some(&ready), LifecycleStep::Close { closed_at: 3_500 }).unwrap();
    assert_eq!(closed.status(), ServiceVisitStatus::Closed);
    let reopened = plan_lifecycle_step(30, 3_500, Some(&ready), LifecycleStep::Reopen).unwrap();
    assert_eq!(reopened.status(), ServiceVisitStatus::Open);
    assert_eq!(reopened.completed_at(), None);
    assert!(matches!(
        plan_lifecycle_step(30, 3_500, Some(&ready), LifecycleStep::Cancel { cancelled_at: 3_500, reason: "x".to_string() }),
        Err(ServiceVisitWorkspaceError::VisitValidation(ServiceVisitValidationError::InvalidTransition {
            from: ServiceVisitStatus::ReadyForPickup,
            to: ServiceVisitStatus::Cancelled
        }))
    ));
    let open = stored_row(ServiceVisitStatus::Open);
    assert!(matches!(
        plan_lifecycle_step(30, 3_500, Some(&open), LifecycleStep::MarkReadyForPickup { completed_at: 3_500 }),
        Err(ServiceVisitWorkspaceError::VisitValidation(ServiceVisitValidationError::MissingWorkPerformed))
    ));
    assert!(matches!(
        plan_lifecycle_step(30, -1, Some(&open), LifecycleStep::Reopen),
        Err(ServiceVisitWorkspaceError::VisitValidation(ServiceVisitValidationError::InvalidTimestamp))
    ));
    assert!(matches!(
        plan_lifecycle_step(33, 1, None, LifecycleStep::Reopen),
        Err(ServiceVisitWorkspaceError::ServiceVisitNotFound(33))
    ));
}

#[test]
fn part_changes_only_on_active_visits() {
    assert!(require_part_changes_allowed(ServiceVisitStatus::Open).is_ok());
    assert!(require_part_changes_allowed(ServiceVisitStatus::ReadyForPickup).is_ok());
    assert!(matches!(
        require_part_changes_allowed(ServiceVisitStatus::Closed),
        Err(ServiceVisitWorkspaceError::VisitDoesNotAllowPartChanges(ServiceVisitStatus::Closed))
    ));
}

#[test]
fn part_addition_uses_the_item_unit() {
    let input = AddServiceVisitPartInput { service_visit_id: 30, inventory_item_id: 9, quantity: 2, unit_price_fils: 8_500, created_at: 1_300 };
    let part = plan_part_addition(input, Some(ServiceVisitStatus::Open), Some(selection())).unwrap();
    assert_eq!(part.unit_name(), "Piece");
    assert_eq!(part.line_total_fils(), 17_000);
    let input = AddServiceVisitPartInput { service_visit_id: 30, inventory_item_id: 9, quantity: 2, unit_price_fils: 8_500, created_at: 1_300 };
    assert!(matches!(
        plan_part_addition(input, Some(ServiceVisitStatus::Open), None),
        Err(ServiceVisitWorkspaceError::InventoryItemNotFound(9))
    ));
    let input = AddServiceVisitPartInput { service_visit_id: 30, inventory_item_id: 9, quantity: 2, unit_price_fils: 8_500, created_at: 1_300 };
    assert!(matches!(plan_part_addition(input, None, None), Err(ServiceVisitWorkspaceError::ServiceVisitNotFound(30))));
    let input = AddServiceVisitPartInput { service_visit_id: 30, inventory_item_id: 9, quantity: 0, unit_price_fils: 8_500, created_at: 1_300 };
    assert!(matches!(
        plan_part_addition(input, Some(ServiceVisitStatus::ReadyForPickup), Some(selection())),
        Err(ServiceVisitWorkspaceError::PartValidation(ServiceVisitPartValidationError::InvalidQuantity))
    ));
}

#[test]
fn part_void_of_stored_part() {
    let input = VoidServiceVisitPartInput { service_visit_id: 30, service_visit_part_id: 70, voided_at: 1_400, reason: None };
    let part = plan_part_void(input, Some(ServiceVisitStatus::Open), Some(stored_part(ServiceVisitPartStatus::Active))).unwrap();
    assert_eq!(part.status(), ServiceVisitPartStatus::Voided);
    assert_eq!(part.voided_at(), Some(1_400));
    let input = VoidServiceVisitPartInput { service_visit_id: 30, service_visit_part_id: 70, voided_at: 1_400, reason: None };
    assert!(matches!(
        plan_part_void(input, Some(ServiceVisitStatus::Open), Some(stored_part(ServiceVisitPartStatus::Voided))),
        Err(ServiceVisitWorkspaceError::PartValidation(ServiceVisitPartValidationError::PartAlreadyVoided))
    ));
    let input = VoidServiceVisitPartInput { service_visit_id: 30, service_visit_part_id: 71, voided_at: 1_400, reason: None };
    assert!(matches!(
        plan_part_void(input, Some(ServiceVisitStatus::Open), None),
        Err(ServiceVisitWorkspaceError::ServiceVisitPartNotFound { service_visit_id: 30, service_visit_part_id: 71 })
    ));
    let input = VoidServiceVisitPartInput { service_visit_id: 30, service_visit_part_id: 70, voided_at: 1_400, reason: None };
    assert!(matches!(
        plan_part_void(input, Some(ServiceVisitStatus::Cancelled), Some(stored_part(ServiceVisitPartStatus::Active))),
        Err(ServiceVisitWorkspaceError::VisitDoesNotAllowPartChanges(ServiceVisitStatus::Cancelled))
    ));
}

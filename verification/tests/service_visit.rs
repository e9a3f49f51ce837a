use moto_workshop::domain::service_visit::{
    NewServiceVisitInput, ServiceVisit, ServiceVisitDetailsInput, ServiceVisitStatus,
    ServiceVisitTextField, ServiceVisitValidationError,
};

fn new_input() -> NewServiceVisitInput {
    NewServiceVisitInput {
        motorcycle_id: 4,
        owner_customer_id: 9,
        opened_at: 1_000,
        odometer_km: Some(12_500),
        customer_complaint: "  Engine stalls when cold  ".to_string(),
        notes: Some(" ".to_string()),
    }
}

fn details(work: Option<&str>) -> ServiceVisitDetailsInput {
    ServiceVisitDetailsInput {
        diagnosis: Some(" Dirty carburettor ".to_string()),
        work_performed: work.map(|w| w.to_string()),
        labor_charge_fils: 15_000,
        notes: Some("Customer waits\nin lobby".to_string()),
        odometer_km: Some(12_600),
    }
}

fn ready_visit() -> ServiceVisit {
    let mut visit = ServiceVisit::open(new_input()).unwrap();
    visit.update_details(details(Some("Cleaned carburettor"))).unwrap();
    visit.mark_ready_for_pickup(2_000).unwrap();
    visit
}

#[test]
fn open_visit_starts_open_with_trimmed_complaint() {
    let visit = ServiceVisit::open(new_input()).unwrap();
    assert_eq!(visit.status(), ServiceVisitStatus::Open);
    assert_eq!(visit.motorcycle_id(), 4);
    assert_eq!(visit.owner_customer_id(), 9);
    assert_eq!(visit.opened_at(), 1_000);
    assert_eq!(visit.odometer_km(), Some(12_500));
    assert_eq!(visit.customer_complaint(), "Engine stalls when cold");
    assert_eq!(visit.notes(), None);
    assert_eq!(visit.labor_charge_fils(), 0);
    assert_eq!(visit.completed_at(), None);
    assert_eq!(visit.closed_at(), None);
    assert_eq!(visit.cancelled_at(), None);
    assert_eq!(visit.diagnosis(), None);
    assert_eq!(visit.work_performed(), None);
    assert_eq!(visit.cancellation_reason(), None);
}

#[test]
fn open_visit_rejects_each_invalid_field() {
    let mut input = new_input();
    input.motorcycle_id = 0;
    assert_eq!(ServiceVisit::open(input).unwrap_err(), ServiceVisitValidationError::InvalidMotorcycleId);
    let mut input = new_input();
    input.owner_customer_id = -2;
    assert_eq!(ServiceVisit::open(input).unwrap_err(), ServiceVisitValidationError::InvalidOwnerCustomerId);
    let mut input = new_input();
    input.opened_at = -1;
    assert_eq!(ServiceVisit::open(input).unwrap_err(), ServiceVisitValidationError::InvalidTimestamp);
    let mut input = new_input();
    input.odometer_km = Some(10_000_000);
    assert_eq!(ServiceVisit::open(input).unwrap_err(), ServiceVisitValidationError::InvalidOdometer);
    let mut input = new_input();
    input.customer_complaint = "\n\t ".to_string();
    assert_eq!(ServiceVisit::open(input).unwrap_err(), ServiceVisitValidationError::BlankComplaint);
    let mut input = new_input();
    input.customer_complaint = "x".repeat(4_001);
    assert_eq!(
        ServiceVisit::open(input).unwrap_err(),
        ServiceVisitValidationError::TextTooLong(ServiceVisitTextField::CustomerComplaint)
    );
    let mut input = new_input();
    input.notes = Some("bell\u{7}".to_string());
    assert_eq!(
        ServiceVisit::open(input).unwrap_err(),
        ServiceVisitValidationError::TextContainsControlCharacter(ServiceVisitTextField::Notes)
    );
}

#[test]
fn update_details_replaces_the_work_fields() {
    let mut visit = ServiceVisit::open(new_input()).unwrap();
    visit.update_details(details(Some(" Cleaned carburettor "))).unwrap();
    assert_eq!(visit.diagnosis(), Some("Dirty carburettor"));
    assert_eq!(visit.work_performed(), Some("Cleaned carburettor"));
    assert_eq!(visit.labor_charge_fils(), 15_000);
    assert_eq!(visit.notes(), Some("Customer waits\nin lobby"));
    assert_eq!(visit.odometer_km(), Some(12_600));
    assert_eq!(visit.status(), ServiceVisitStatus::Open);
}

#[test]
fn update_details_rejects_negative_labor_and_leaves_visit_unchanged() {
    let mut visit = ServiceVisit::open(new_input()).unwrap();
    let mut input = details(None);
    input.labor_charge_fils = -1;
    assert_eq!(visit.update_details(input), Err(ServiceVisitValidationError::NegativeLaborCharge));
    assert_eq!(visit, ServiceVisit::open(new_input()).unwrap());
}

#[test]
fn ready_visit_must_keep_its_work_performed() {
    let mut visit = ready_visit();
    assert_eq!(
        visit.update_details(details(Some("   "))),
        Err(ServiceVisitValidationError::MissingWorkPerformed)
    );
    assert_eq!(visit.work_performed(), Some("Cleaned carburettor"));
}

#[test]
fn mark_ready_needs_work_performed_and_ordered_time() {
    let mut visit = ServiceVisit::open(new_input()).unwrap();
    assert_eq!(visit.mark_ready_for_pickup(2_000), Err(ServiceVisitValidationError::MissingWorkPerformed));
    visit.update_details(details(Some("Done"))).unwrap();
    assert_eq!(visit.mark_ready_for_pickup(999), Err(ServiceVisitValidationError::InvalidTimestamp));
    visit.mark_ready_for_pickup(1_000).unwrap();
    assert_eq!(visit.status(), ServiceVisitStatus::ReadyForPickup);
    assert_eq!(visit.completed_at(), Some(1_000));
}

#[test]
fn reopen_undoes_ready_for_pickup_on_a_visit() {
    let before = {
        let mut visit = ServiceVisit::open(new_input()).unwrap();
        visit.update_details(details(Some("Cleaned carburettor"))).unwrap();
        visit
    };
    let mut visit = ready_visit();
    visit.reopen().unwrap();
    assert_eq!(visit, before);
}

#[test]
fn reopen_only_from_ready_for_pickup() {
    let mut visit = ServiceVisit::open(new_input()).unwrap();
    assert_eq!(
        visit.reopen(),
        Err(ServiceVisitValidationError::InvalidTransition {
            from: ServiceVisitStatus::Open,
            to: ServiceVisitStatus::Open,
        })
    );
}

#[test]
fn close_after_ready_records_closing_time() {
    let mut visit = ready_visit();
    assert_eq!(visit.close(1_999), Err(ServiceVisitValidationError::InvalidTimestamp));
    visit.close(3_000).unwrap();
    assert_eq!(visit.status(), ServiceVisitStatus::Closed);
    assert_eq!(visit.closed_at(), Some(3_000));
    assert_eq!(visit.completed_at(), Some(2_000));
}

#[test]
fn close_from_open_is_an_invalid_transition() {
    let mut visit = ServiceVisit::open(new_input()).unwrap();
    assert_eq!(
        visit.close(5_000),
        Err(ServiceVisitValidationError::InvalidTransition {
            from: ServiceVisitStatus::Open,
            to: ServiceVisitStatus::Closed,
        })
    );
}

#[test]
fn cancel_open_visit_keeps_trimmed_reason() {
    let mut visit = ServiceVisit::open(new_input()).unwrap();
    assert_eq!(
        visit.cancel(2_000, "  ".to_string()),
        Err(ServiceVisitValidationError::BlankCancellationReason)
    );
    assert_eq!(visit.cancel(500, "Owner left".to_string()), Err(ServiceVisitValidationError::InvalidTimestamp));
    visit.cancel(2_000, " Owner left ".to_string()).unwrap();
    assert_eq!(visit.status(), ServiceVisitStatus::Cancelled);
    assert_eq!(visit.cancelled_at(), Some(2_000));
    assert_eq!(visit.cancellation_reason(), Some("Owner left"));
}

#[test]
fn cancellation_reason_limit_is_one_thousand_characters() {
    let mut visit = ServiceVisit::open(new_input()).unwrap();
    assert_eq!(
        visit.cancel(2_000, "r".repeat(1_001)),
        Err(ServiceVisitValidationError::TextTooLong(ServiceVisitTextField::CancellationReason))
    );
}

#[test]
fn terminal_visits_refuse_every_change() {
    let mut closed = ready_visit();
    closed.close(3_000).unwrap();
    let snapshot = ready_visit();
    assert_eq!(
        closed.update_details(details(Some("More"))),
        Err(ServiceVisitValidationError::TerminalVisitCannotBeEdited)
    );
    assert_eq!(
        closed.reopen(),
        Err(ServiceVisitValidationError::InvalidTransition {
            from: ServiceVisitStatus::Closed,
            to: ServiceVisitStatus::Open,
        })
    );
    assert_eq!(
        closed.cancel(4_000, "Late".to_string()),
        Err(ServiceVisitValidationError::InvalidTransition {
            from: ServiceVisitStatus::Closed,
            to: ServiceVisitStatus::Cancelled,
        })
    );
    assert_eq!(closed.closed_at(), Some(3_000));
    assert_eq!(snapshot.status(), ServiceVisitStatus::ReadyForPickup);

    let mut cancelled = ServiceVisit::open(new_input()).unwrap();
    cancelled.cancel(2_000, "No show".to_string()).unwrap();
    assert_eq!(
        cancelled.mark_ready_for_pickup(3_000),
        Err(ServiceVisitValidationError::InvalidTransition {
            from: ServiceVisitStatus::Cancelled,
            to: ServiceVisitStatus::ReadyForPickup,
        })
    );
    assert_eq!(
        cancelled.update_details(details(Some("x"))),
        Err(ServiceVisitValidationError::TerminalVisitCannotBeEdited)
    );
}

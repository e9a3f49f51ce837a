use moto_workshop::domain::invoice::{InvoiceIssue, InvoiceIssueError, InvoiceIssueInput};
use moto_workshop::domain::service_visit::ServiceVisitStatus;

fn input() -> InvoiceIssueInput {
    InvoiceIssueInput {
        invoice_id: 42,
        service_visit_id: 8,
        service_visit_status: ServiceVisitStatus::ReadyForPickup,
        completed_at: Some(5_000),
        issued_at: 6_000,
        labor_charge_fils: 15_000,
        active_part_line_totals_fils: vec![6_000, 750, 0],
    }
}

#[test]
fn issued_invoice_has_padded_number_and_totals() {
    let issue = InvoiceIssue::new(input()).unwrap();
    assert_eq!(issue.invoice_number(), "INV-000042");
    assert_eq!(issue.issued_at(), 6_000);
    assert_eq!(issue.labor_charge_fils(), 15_000);
    assert_eq!(issue.parts_total_fils(), 6_750);
    assert_eq!(issue.total_fils(), 21_750);
}

#[test]
fn invoice_number_wider_than_six_digits_is_not_cut() {
    let mut i = input();
    i.invoice_id = 1_234_567;
    assert_eq!(InvoiceIssue::new(i).unwrap().invoice_number(), "INV-1234567");
}

#[test]
fn closed_visit_with_no_parts_is_invoiced_for_labor_only() {
    let mut i = input();
    i.service_visit_status = ServiceVisitStatus::Closed;
    i.active_part_line_totals_fils = Vec::new();
    let issue = InvoiceIssue::new(i).unwrap();
    assert_eq!(issue.parts_total_fils(), 0);
    assert_eq!(issue.total_fils(), 15_000);
}

#[test]
fn open_and_cancelled_visits_are_not_invoiceable() {
    for status in [ServiceVisitStatus::Open, ServiceVisitStatus::Cancelled] {
        let mut i = input();
        i.service_visit_status = status;
        assert_eq!(InvoiceIssue::new(i).unwrap_err(), InvoiceIssueError::ServiceVisitNotInvoiceable);
    }
}

#[test]
fn invoice_rejects_each_invalid_input() {
    let mut i = input();
    i.invoice_id = 0;
    assert_eq!(InvoiceIssue::new(i).unwrap_err(), InvoiceIssueError::InvalidInvoiceId);
    let mut i = input();
    i.service_visit_id = -1;
    assert_eq!(InvoiceIssue::new(i).unwrap_err(), InvoiceIssueError::InvalidServiceVisitId);
    let mut i = input();
    i.completed_at = None;
    assert_eq!(InvoiceIssue::new(i).unwrap_err(), InvoiceIssueError::InvalidTimestamp);
    let mut i = input();
    i.issued_at = 4_999;
    assert_eq!(InvoiceIssue::new(i).unwrap_err(), InvoiceIssueError::InvalidTimestamp);
    let mut i = input();
    i.labor_charge_fils = -1;
    assert_eq!(InvoiceIssue::new(i).unwrap_err(), InvoiceIssueError::InvalidMoney);
    let mut i = input();
    i.active_part_line_totals_fils = vec![10, -1];
    assert_eq!(InvoiceIssue::new(i).unwrap_err(), InvoiceIssueError::InvalidMoney);
}

#[test]
fn invoice_totals_that_overflow_are_refused() {
    let mut i = input();
    i.active_part_line_totals_fils = vec![i64::MAX, 1];
    assert_eq!(InvoiceIssue::new(i).unwrap_err(), InvoiceIssueError::TotalOverflow);
    let mut i = input();
    i.labor_charge_fils = 1;
    i.active_part_line_totals_fils = vec![i64::MAX];
    assert_eq!(InvoiceIssue::new(i).unwrap_err(), InvoiceIssueError::TotalOverflow);
    let mut i = input();
    i.labor_charge_fils = 0;
    i.active_part_line_totals_fils = vec![i64::MAX];
    assert_eq!(InvoiceIssue::new(i).unwrap().total_fils(), i64::MAX);
}

#[test]
fn different_invoices_get_different_numbers() {
    let mut numbers = Vec::new();
    for id in [1, 10, 42, 420, 999_999, 1_000_000, 10_000_000] {
        let mut i = input();
        i.invoice_id = id;
        numbers.push(InvoiceIssue::new(i).unwrap().invoice_number().to_string());
    }
    let mut unique = numbers.clone();
    unique.sort();
    unique.dedup();
    assert_eq!(unique.len(), numbers.len());
    assert_eq!(numbers[3], "INV-000420");
    assert_eq!(numbers[5], "INV-1000000");
}

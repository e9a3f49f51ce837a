use moto_workshop::application::customer::CustomerApplicationError;
use moto_workshop::application::{database_failure_from_text, DatabaseError};
use moto_workshop::application::customer_details::CustomerDetailsApplicationError;
use moto_workshop::application::dashboard::DashboardApplicationError;
use moto_workshop::application::inventory::InventoryApplicationError;
use moto_workshop::application::invoice::InvoiceApplicationError;
use moto_workshop::application::motorcycle_directory::MotorcycleDirectoryApplicationError;
use moto_workshop::application::motorcycle_registration::{
    MotorcycleRegistrationError, MotorcycleRegistrationReference,
};
use moto_workshop::application::service_visit_directory::ServiceVisitDirectoryApplicationError;
use moto_workshop::application::service_visit_lookup::ServiceVisitLookupError;
use moto_workshop::application::service_visit_workspace::ServiceVisitWorkspaceError;
use moto_workshop::domain::customer::CustomerValidationError;
use moto_workshop::domain::inventory::InventoryValidationError;
use moto_workshop::domain::invoice::InvoiceIssueError;
use moto_workshop::domain::motorcycle::{
    ChassisNumberValidationError, MotorcycleValidationError, PlateNumberValidationError,
    VinValidationError,
};
use moto_workshop::domain::service_visit::{
    ServiceVisitStatus, ServiceVisitTextField, ServiceVisitValidationError,
};
use moto_workshop::domain::service_visit_part::{
    ServiceVisitPartTextField, ServiceVisitPartValidationError,
};

fn db() -> DatabaseError {
    DatabaseError::from_rusqlite(&rusqlite::Error::InvalidQuery)
}

#[test]
fn database_messages_carry_the_database_text() {
    let expected = format!("database operation failed: {}", rusqlite::Error::InvalidQuery);
    assert_eq!(CustomerApplicationError::Database(db()).message(), expected);
    assert_eq!(CustomerDetailsApplicationError::Database(db()).message(), expected);
    assert_eq!(DashboardApplicationError::Database(db()).message(), expected);
    assert_eq!(InvoiceApplicationError::Database(db()).message(), expected);
    assert_eq!(MotorcycleDirectoryApplicationError(db()).message(), expected);
    assert_eq!(MotorcycleRegistrationError::Database(db()).message(), expected);
    assert_eq!(ServiceVisitDirectoryApplicationError(db()).message(), expected);
    assert_eq!(ServiceVisitLookupError::Database(db()).message(), expected);
    assert_eq!(ServiceVisitWorkspaceError::Database(db()).message(), expected);
}

#[test]
fn customer_and_dashboard_messages() {
    assert_eq!(CustomerApplicationError::InvalidTimestamp.message(), "customer timestamp is invalid");
    assert_eq!(
        CustomerApplicationError::Validation(CustomerValidationError::BlankPhone).message(),
        "invalid customer: BlankPhone"
    );
    assert_eq!(CustomerApplicationError::PhoneAlreadyExists.message(), "customer phone already exists");
    assert_eq!(DashboardApplicationError::InvalidDayRange.message(), "invalid local calendar day range");
    assert_eq!(
        InventoryApplicationError::Validation(InventoryValidationError::InvalidUnitId).message(),
        "inventory operation failed"
    );
    assert_eq!(InventoryApplicationError::InventorySkuAlreadyExists.message(), "inventory operation failed");
}

#[test]
fn invoice_messages() {
    assert_eq!(InvoiceApplicationError::InvoiceNotFound(7).message(), "invoice 7 was not found");
    assert_eq!(InvoiceApplicationError::InvoiceAlreadyIssued(8).message(), "invoice 8 is already issued");
    assert_eq!(
        InvoiceApplicationError::ServiceVisitNotInvoiceable.message(),
        "service visit is not ready for invoicing"
    );
    for error in [
        InvoiceIssueError::InvalidInvoiceId,
        InvoiceIssueError::InvalidServiceVisitId,
        InvoiceIssueError::ServiceVisitNotInvoiceable,
        InvoiceIssueError::InvalidTimestamp,
        InvoiceIssueError::InvalidMoney,
        InvoiceIssueError::TotalOverflow,
    ] {
        assert_eq!(
            InvoiceApplicationError::Validation(error).message(),
            format!("invalid invoice: {error:?}")
        );
    }
}

#[test]
fn motorcycle_registration_messages() {
    assert_eq!(MotorcycleRegistrationError::InvalidTimestamp.message(), "motorcycle timestamp is invalid");
    assert_eq!(MotorcycleRegistrationError::CustomerNotFound(-3).message(), "customer -3 was not found");
    assert_eq!(
        MotorcycleRegistrationError::InvalidReference(MotorcycleRegistrationReference::Color).message(),
        "motorcycle reference Color is invalid"
    );
    assert_eq!(
        MotorcycleRegistrationError::IdentityAlreadyExists.message(),
        "motorcycle identity already exists"
    );
    for error in [
        MotorcycleValidationError::BlankModel,
        MotorcycleValidationError::ModelTooLong,
        MotorcycleValidationError::ModelContainsControlCharacter,
        MotorcycleValidationError::InvalidYear,
        MotorcycleValidationError::InvalidPlateNumber(PlateNumberValidationError::Blank),
        MotorcycleValidationError::InvalidPlateNumber(PlateNumberValidationError::InvalidCharacter),
        MotorcycleValidationError::InvalidPlateNumber(PlateNumberValidationError::InvalidFormat),
        MotorcycleValidationError::InvalidVin(VinValidationError::Blank),
        MotorcycleValidationError::InvalidVin(VinValidationError::InvalidLength),
        MotorcycleValidationError::InvalidVin(VinValidationError::InvalidCharacter),
        MotorcycleValidationError::InvalidChassisNumber(ChassisNumberValidationError::Blank),
        MotorcycleValidationError::InvalidChassisNumber(ChassisNumberValidationError::InvalidLength),
        MotorcycleValidationError::InvalidChassisNumber(ChassisNumberValidationError::InvalidCharacter),
        MotorcycleValidationError::NotesTooLong,
    ] {
        assert_eq!(
            MotorcycleRegistrationError::Validation(error).message(),
            format!("invalid motorcycle: {error:?}")
        );
    }
}

#[test]
fn lookup_messages() {
    assert_eq!(ServiceVisitLookupError::CustomerNotFound(12).message(), "customer 12 was not found");
}

#[test]
fn workspace_messages() {
    assert_eq!(ServiceVisitWorkspaceError::MotorcycleNotFound(5).message(), "motorcycle 5 was not found");
    assert_eq!(
        ServiceVisitWorkspaceError::ActiveServiceVisitExists(5).message(),
        "motorcycle 5 already has an active service visit"
    );
    assert_eq!(ServiceVisitWorkspaceError::ServiceVisitNotFound(9).message(), "service visit 9 was not found");
    assert_eq!(
        ServiceVisitWorkspaceError::InventoryItemNotFound(4).message(),
        "usable inventory item 4 was not found"
    );
    assert_eq!(
        ServiceVisitWorkspaceError::ServiceVisitPartNotFound {
            service_visit_id: 30,
            service_visit_part_id: 71,
        }
        .message(),
        "service visit part 71 was not found on visit 30"
    );
    for status in [
        ServiceVisitStatus::Open,
        ServiceVisitStatus::ReadyForPickup,
        ServiceVisitStatus::Closed,
        ServiceVisitStatus::Cancelled,
    ] {
        assert_eq!(
            ServiceVisitWorkspaceError::VisitDoesNotAllowPartChanges(status).message(),
            format!("service visit status {status:?} does not allow part changes")
        );
    }
    let fields = [
        ServiceVisitTextField::CustomerComplaint,
        ServiceVisitTextField::Diagnosis,
        ServiceVisitTextField::WorkPerformed,
        ServiceVisitTextField::CancellationReason,
        ServiceVisitTextField::Notes,
    ];
    let mut visit_errors = vec![
        ServiceVisitValidationError::InvalidMotorcycleId,
        ServiceVisitValidationError::InvalidOwnerCustomerId,
        ServiceVisitValidationError::InvalidTimestamp,
        ServiceVisitValidationError::InvalidOdometer,
        ServiceVisitValidationError::BlankComplaint,
        ServiceVisitValidationError::BlankCancellationReason,
        ServiceVisitValidationError::NegativeLaborCharge,
        ServiceVisitValidationError::MissingWorkPerformed,
        ServiceVisitValidationError::InvalidTransition {
            from: ServiceVisitStatus::ReadyForPickup,
            to: ServiceVisitStatus::Cancelled,
        },
        ServiceVisitValidationError::TerminalVisitCannotBeEdited,
    ];
    for field in fields {
        visit_errors.push(ServiceVisitValidationError::TextTooLong(field));
        visit_errors.push(ServiceVisitValidationError::TextContainsControlCharacter(field));
    }
    for error in visit_errors {
        assert_eq!(
            ServiceVisitWorkspaceError::VisitValidation(error).message(),
            format!("invalid service visit: {error:?}")
        );
    }
    let mut part_errors = vec![
        ServiceVisitPartValidationError::InvalidServiceVisitId,
        ServiceVisitPartValidationError::InvalidInventoryItemId,
        ServiceVisitPartValidationError::BlankItemName,
        ServiceVisitPartValidationError::BlankUnitName,
        ServiceVisitPartValidationError::InvalidQuantity,
        ServiceVisitPartValidationError::InvalidQuantityScale,
        ServiceVisitPartValidationError::InvalidUnitPrice,
        ServiceVisitPartValidationError::InvalidTimestamp,
        ServiceVisitPartValidationError::CalculationOverflow,
        ServiceVisitPartValidationError::PartAlreadyVoided,
    ];
    for field in [
        ServiceVisitPartTextField::ItemName,
        ServiceVisitPartTextField::UnitName,
        ServiceVisitPartTextField::VoidReason,
    ] {
        part_errors.push(ServiceVisitPartValidationError::TextTooLong(field));
        part_errors.push(ServiceVisitPartValidationError::TextContainsControlCharacter(field));
    }
    for error in part_errors {
        assert_eq!(
            ServiceVisitWorkspaceError::PartValidation(error).message(),
            format!("invalid service visit part: {error:?}")
        );
    }
    assert_eq!(
        ServiceVisitWorkspaceError::VisitValidation(ServiceVisitValidationError::InvalidTransition {
            from: ServiceVisitStatus::Open,
            to: ServiceVisitStatus::Closed,
        })
        .message(),
        "invalid service visit: InvalidTransition { from: Open, to: Closed }"
    );
}

#[test]
fn database_failure_text_follows_the_prefix() {
    assert_eq!(database_failure_from_text("disk I/O error"), "database operation failed: disk I/O error");
    assert_eq!(database_failure_from_text(""), "database operation failed: ");
    let failure = DatabaseError { text: "database is locked".to_string(), extended_code: Some(5) };
    assert_eq!(failure.message(), "database operation failed: database is locked");
    assert_eq!(CustomerDetailsApplicationError::Database(failure.clone()).message(), failure.message());
    assert_eq!(MotorcycleDirectoryApplicationError(failure.clone()).message(), failure.message());
    assert_eq!(ServiceVisitDirectoryApplicationError(failure).message(), "database operation failed: database is locked");
}

#[test]
fn recorded_database_failure_keeps_text_and_code() {
    let refused = rusqlite::Error::SqliteFailure(
        rusqlite::ffi::Error::new(rusqlite::ffi::SQLITE_CONSTRAINT_UNIQUE),
        Some("UNIQUE constraint failed: customers.phone".to_string()),
    );
    let failure = DatabaseError::from_rusqlite(&refused);
    assert_eq!(failure.text, refused.to_string());
    assert_eq!(failure.extended_code, Some(2067));
    assert!(failure.is_unique_violation());
    let other = DatabaseError::from_rusqlite(&rusqlite::Error::QueryReturnedNoRows);
    assert_eq!(other.extended_code, None);
    assert!(!other.is_unique_violation());
    let busy = DatabaseError { text: "database is locked".to_string(), extended_code: Some(5) };
    assert!(!busy.is_unique_violation());
    let primary_only = DatabaseError { text: "constraint failed".to_string(), extended_code: Some(19) };
    assert!(!primary_only.is_unique_violation());
}

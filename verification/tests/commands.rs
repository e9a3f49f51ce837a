use moto_workshop::application::customer::CustomerApplicationError;
use moto_workshop::application::DatabaseError;
use moto_workshop::application::customer_details::CustomerDetailsApplicationError;
use moto_workshop::application::dashboard::DashboardApplicationError;
use moto_workshop::application::inventory::InventoryApplicationError;
use moto_workshop::application::invoice::InvoiceApplicationError;
use moto_workshop::application::motorcycle_registration::{
    MotorcycleRegistrationError, MotorcycleRegistrationReference,
};
use moto_workshop::application::service_visit_lookup::ServiceVisitLookupError;
use moto_workshop::application::service_visit_workspace::ServiceVisitWorkspaceError;
use moto_workshop::commands::{
    customer_details_error, customer_details_not_found, customer_error, dashboard_error,
    inventory_error, inventory_item_not_found, invoice_error, motorcycle_not_found,
    motorcycle_registration_error, service_visit_lookup_error, service_visit_workspace_error,
    CommandError, CommandErrorCategory,
};
use moto_workshop::domain::customer::CustomerValidationError;
use moto_workshop::domain::invoice::InvoiceIssueError;
use moto_workshop::domain::service_visit::{ServiceVisitStatus, ServiceVisitValidationError};
use moto_workshop::domain::service_visit_part::ServiceVisitPartValidationError;

fn db() -> DatabaseError {
    DatabaseError::from_rusqlite(&rusqlite::Error::InvalidQuery)
}

fn expect(error: CommandError, category: CommandErrorCategory, message: &str) {
    assert_eq!(error.category, category);
    assert_eq!(error.message, message);
}

#[test]
fn database_errors_share_one_message() {
    let message = "The workshop database operation failed.";
    expect(CommandError::database(), CommandErrorCategory::DatabaseError, message);
    expect(customer_error(CustomerApplicationError::Database(db())), CommandErrorCategory::DatabaseError, message);
    expect(customer_details_error(CustomerDetailsApplicationError::Database(db())), CommandErrorCategory::DatabaseError, message);
    expect(dashboard_error(DashboardApplicationError::Database(db())), CommandErrorCategory::DatabaseError, message);
    expect(inventory_error(InventoryApplicationError::Database(db())), CommandErrorCategory::DatabaseError, message);
    expect(invoice_error(InvoiceApplicationError::Database(db())), CommandErrorCategory::DatabaseError, message);
    expect(motorcycle_registration_error(MotorcycleRegistrationError::Database(db())), CommandErrorCategory::DatabaseError, message);
    expect(service_visit_lookup_error(ServiceVisitLookupError::Database(db())), CommandErrorCategory::DatabaseError, message);
    expect(service_visit_workspace_error(ServiceVisitWorkspaceError::Database(db())), CommandErrorCategory::DatabaseError, message);
}

#[test]
fn customer_command_errors() {
    expect(
        customer_error(CustomerApplicationError::PhoneAlreadyExists),
        CommandErrorCategory::CustomerPhoneAlreadyExists,
        "A Customer with this phone number already exists.",
    );
    expect(
        customer_error(CustomerApplicationError::Validation(CustomerValidationError::BlankPhone)),
        CommandErrorCategory::ValidationError,
        "The supplied Customer data is invalid.",
    );
    expect(
        customer_error(CustomerApplicationError::InvalidTimestamp),
        CommandErrorCategory::ValidationError,
        "The supplied Customer data is invalid.",
    );
    expect(customer_details_not_found(), CommandErrorCategory::CustomerNotFound, "The Customer could not be found.");
}

#[test]
fn dashboard_and_inventory_command_errors() {
    expect(
        dashboard_error(DashboardApplicationError::InvalidDayRange),
        CommandErrorCategory::ValidationError,
        "The supplied local day range is invalid.",
    );
    expect(inventory_item_not_found(), CommandErrorCategory::InventoryItemNotFound, "The Inventory Item could not be found.");
    expect(
        inventory_error(InventoryApplicationError::InventoryItemNotFound),
        CommandErrorCategory::InventoryItemNotFound,
        "The Inventory Item could not be found.",
    );
    expect(
        inventory_error(InventoryApplicationError::InventoryUnitNotFound),
        CommandErrorCategory::InventoryUnitNotFound,
        "The Inventory Unit could not be found.",
    );
    expect(
        inventory_error(InventoryApplicationError::InventorySkuAlreadyExists),
        CommandErrorCategory::InventorySkuAlreadyExists,
        "An Inventory Item with this SKU already exists.",
    );
}

#[test]
fn invoice_command_errors_name_the_invoice() {
    expect(invoice_error(InvoiceApplicationError::InvoiceNotFound(17)), CommandErrorCategory::InvoiceNotFound, "Invoice 17 was not found.");
    expect(
        invoice_error(InvoiceApplicationError::InvoiceAlreadyIssued(-4)),
        CommandErrorCategory::InvoiceAlreadyIssued,
        "Invoice -4 has already been issued.",
    );
    expect(
        invoice_error(InvoiceApplicationError::ServiceVisitNotInvoiceable),
        CommandErrorCategory::ServiceVisitNotInvoiceable,
        "Only completed Service Visits can be invoiced.",
    );
    expect(
        invoice_error(InvoiceApplicationError::Validation(InvoiceIssueError::TotalOverflow)),
        CommandErrorCategory::ValidationError,
        "The supplied Invoice data is invalid.",
    );
}

#[test]
fn motorcycle_command_errors() {
    expect(motorcycle_not_found(), CommandErrorCategory::MotorcycleNotFound, "The Motorcycle could not be found.");
    expect(
        motorcycle_registration_error(MotorcycleRegistrationError::CustomerNotFound(5)),
        CommandErrorCategory::CustomerNotFound,
        "The Customer was not found.",
    );
    expect(
        motorcycle_registration_error(MotorcycleRegistrationError::InvalidReference(MotorcycleRegistrationReference::Color)),
        CommandErrorCategory::ValidationError,
        "The supplied Motorcycle data is invalid.",
    );
    expect(
        motorcycle_registration_error(MotorcycleRegistrationError::IdentityAlreadyExists),
        CommandErrorCategory::MotorcycleIdentityAlreadyExists,
        "A Motorcycle with this identity already exists.",
    );
    expect(
        service_visit_lookup_error(ServiceVisitLookupError::CustomerNotFound(2)),
        CommandErrorCategory::CustomerNotFound,
        "The Customer was not found.",
    );
}

#[test]
fn workspace_command_errors() {
    expect(
        service_visit_workspace_error(ServiceVisitWorkspaceError::MotorcycleNotFound(12)),
        CommandErrorCategory::MotorcycleNotFound,
        "Motorcycle 12 was not found.",
    );
    expect(
        service_visit_workspace_error(ServiceVisitWorkspaceError::ActiveServiceVisitExists(12)),
        CommandErrorCategory::ActiveServiceVisitExists,
        "Motorcycle 12 already has an active Service Visit.",
    );
    expect(
        service_visit_workspace_error(ServiceVisitWorkspaceError::ServiceVisitNotFound(900)),
        CommandErrorCategory::ServiceVisitNotFound,
        "Service Visit 900 was not found.",
    );
    expect(
        service_visit_workspace_error(ServiceVisitWorkspaceError::InventoryItemNotFound(3)),
        CommandErrorCategory::InventoryItemNotFound,
        "Usable Inventory Item 3 was not found.",
    );
    expect(
        service_visit_workspace_error(ServiceVisitWorkspaceError::ServiceVisitPartNotFound {
            service_visit_id: 30,
            service_visit_part_id: 71,
        }),
        CommandErrorCategory::ServiceVisitPartNotFound,
        "Service Visit Part 71 was not found on Service Visit 30.",
    );
    expect(
        service_visit_workspace_error(ServiceVisitWorkspaceError::VisitDoesNotAllowPartChanges(ServiceVisitStatus::Closed)),
        CommandErrorCategory::LifecycleRejected,
        "The Service Visit status does not allow Part changes.",
    );
    expect(
        service_visit_workspace_error(ServiceVisitWorkspaceError::VisitValidation(
            ServiceVisitValidationError::InvalidTransition { from: ServiceVisitStatus::Open, to: ServiceVisitStatus::Closed },
        )),
        CommandErrorCategory::LifecycleRejected,
        "The Service Visit lifecycle transition is not allowed.",
    );
    expect(
        service_visit_workspace_error(ServiceVisitWorkspaceError::VisitValidation(
            ServiceVisitValidationError::TerminalVisitCannotBeEdited,
        )),
        CommandErrorCategory::LifecycleRejected,
        "The Service Visit lifecycle transition is not allowed.",
    );
    expect(
        service_visit_workspace_error(ServiceVisitWorkspaceError::VisitValidation(ServiceVisitValidationError::BlankComplaint)),
        CommandErrorCategory::ValidationError,
        "The supplied Service Visit data is invalid.",
    );
    expect(
        service_visit_workspace_error(ServiceVisitWorkspaceError::PartValidation(ServiceVisitPartValidationError::InvalidQuantity)),
        CommandErrorCategory::ValidationError,
        "The supplied Service Visit data is invalid.",
    );
}

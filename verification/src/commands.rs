//! The errors that the user interface is shown: a category it can act on and
//! a message it can display.

use vstd::prelude::*;

use crate::application::customer::CustomerApplicationError;
use crate::application::customer_details::CustomerDetailsApplicationError;
use crate::application::dashboard::DashboardApplicationError;
use crate::application::inventory::InventoryApplicationError;
use crate::application::invoice::InvoiceApplicationError;
use crate::application::motorcycle_registration::MotorcycleRegistrationError;
use crate::application::service_visit_lookup::ServiceVisitLookupError;
use crate::application::service_visit_workspace::ServiceVisitWorkspaceError;
use crate::domain::service_visit::ServiceVisitValidationError;
use crate::text::{int_text, int_to_text, join3, join5};

verus! {

#[derive(Debug, Clone, PartialEq, Eq)]
pub struct CommandError {
    pub category: CommandErrorCategory,
    pub message: String,
}

#[derive(Debug, Clone, Copy, PartialEq, Eq)]
pub enum CommandErrorCategory {
    CustomerNotFound,
    CustomerPhoneAlreadyExists,
    MotorcycleNotFound,
    MotorcycleIdentityAlreadyExists,
    ActiveServiceVisitExists,
    ServiceVisitNotFound,
    InventoryItemNotFound,
    InventoryUnitNotFound,
    InventorySkuAlreadyExists,
    ServiceVisitPartNotFound,
    InvoiceNotFound,
    InvoiceAlreadyIssued,
    ServiceVisitNotInvoiceable,
    LifecycleRejected,
    ValidationError,
    DatabaseError,
}

/// An error of the given category with the given message.
pub open spec fn is_error(e: CommandError, category: CommandErrorCategory, message: Seq<char>) -> bool {
    e.category == category && e.message@ == message
}

/// The message text around an identifier.
fn message_with_id(prefix: &str, id: i64, suffix: &str) -> (r: String)
    ensures
        r@ == prefix@ + int_text(id as int) + suffix@,
{
    join3(prefix, int_to_text(id).as_str(), suffix)
}

/// The message text around two identifiers.
fn message_with_two_ids(prefix: &str, first: i64, middle: &str, second: i64, suffix: &str) -> (r:
    String)
    ensures
        r@ == prefix@ + int_text(first as int) + middle@ + int_text(second as int) + suffix@,
{
    join5(prefix, int_to_text(first).as_str(), middle, int_to_text(second).as_str(), suffix)
}

fn error_with(category: CommandErrorCategory, message: &str) -> (r: CommandError)
    ensures
        is_error(r, category, message@),
{
    CommandError { category, message: message.to_string() }
}

impl CommandError {
    /// A failure of the database, whatever its cause.
    pub fn database() -> (r: Self)
        ensures
            is_error(r, CommandErrorCategory::DatabaseError, "The workshop database operation failed."@),
    {
        error_with(CommandErrorCategory::DatabaseError, "The workshop database operation failed.")
    }
}

pub fn customer_error(error: CustomerApplicationError) -> (r: CommandError)
    ensures
        match error {
            CustomerApplicationError::PhoneAlreadyExists => is_error(
                r,
                CommandErrorCategory::CustomerPhoneAlreadyExists,
                "A Customer with this phone number already exists."@,
            ),
            CustomerApplicationError::InvalidTimestamp | CustomerApplicationError::Validation(
                _,
            ) => is_error(
                r,
                CommandErrorCategory::ValidationError,
                "The supplied Customer data is invalid."@,
            ),
            CustomerApplicationError::Database(_) => is_error(
                r,
                CommandErrorCategory::DatabaseError,
                "The workshop database operation failed."@,
            ),
        },
{
    match error {
        CustomerApplicationError::PhoneAlreadyExists => error_with(
            CommandErrorCategory::CustomerPhoneAlreadyExists,
            "A Customer with this phone number already exists.",
        ),
        CustomerApplicationError::InvalidTimestamp | CustomerApplicationError::Validation(_) => error_with(
            CommandErrorCategory::ValidationError,
            "The supplied Customer data is invalid.",
        ),
        CustomerApplicationError::Database(_) => CommandError::database(),
    }
}

/// What the customer details page shows when the customer is missing or
/// the database fails.
pub fn customer_details_not_found() -> (r: CommandError)
    ensures
        is_error(r, CommandErrorCategory::CustomerNotFound, "The Customer could not be found."@),
{
    error_with(CommandErrorCategory::CustomerNotFound, "The Customer could not be found.")
}

pub fn customer_details_error(error: CustomerDetailsApplicationError) -> (r: CommandError)
    ensures
        is_error(r, CommandErrorCategory::DatabaseError, "The workshop database operation failed."@),
{
    match error {
        CustomerDetailsApplicationError::Database(_) => CommandError::database(),
    }
}

pub fn dashboard_error(error: DashboardApplicationError) -> (r: CommandError)
    ensures
        match error {
            DashboardApplicationError::InvalidDayRange => is_error(
                r,
                CommandErrorCategory::ValidationError,
                "The supplied local day range is invalid."@,
            ),
            DashboardApplicationError::Database(_) => is_error(
                r,
                CommandErrorCategory::DatabaseError,
                "The workshop database operation failed."@,
            ),
        },
{
    match error {
        DashboardApplicationError::InvalidDayRange => error_with(
            CommandErrorCategory::ValidationError,
            "The supplied local day range is invalid.",
        ),
        DashboardApplicationError::Database(_) => CommandError::database(),
    }
}

/// What the inventory pages show for an item that is missing.
pub fn inventory_item_not_found() -> (r: CommandError)
    ensures
        is_error(
            r,
            CommandErrorCategory::InventoryItemNotFound,
            "The Inventory Item could not be found."@,
        ),
{
    error_with(CommandErrorCategory::InventoryItemNotFound, "The Inventory Item could not be found.")
}

pub fn inventory_error(error: InventoryApplicationError) -> (r: CommandError)
    ensures
        match error {
            InventoryApplicationError::InventoryItemNotFound => is_error(
                r,
                CommandErrorCategory::InventoryItemNotFound,
                "The Inventory Item could not be found."@,
            ),
            InventoryApplicationError::InventoryUnitNotFound => is_error(
                r,
                CommandErrorCategory::InventoryUnitNotFound,
                "The Inventory Unit could not be found."@,
            ),
            InventoryApplicationError::InventorySkuAlreadyExists => is_error(
                r,
                CommandErrorCategory::InventorySkuAlreadyExists,
                "An Inventory Item with this SKU already exists."@,
            ),
            InventoryApplicationError::Validation(_) => is_error(
                r,
                CommandErrorCategory::ValidationError,
                "The Inventory input is invalid."@,
            ),
            InventoryApplicationError::Database(_) => is_error(
                r,
                CommandErrorCategory::DatabaseError,
                "The workshop database operation failed."@,
            ),
        },
{
    match error {
        InventoryApplicationError::InventoryItemNotFound => inventory_item_not_found(),
        InventoryApplicationError::InventoryUnitNotFound => error_with(
            CommandErrorCategory::InventoryUnitNotFound,
            "The Inventory Unit could not be found.",
        ),
        InventoryApplicationError::InventorySkuAlreadyExists => error_with(
            CommandErrorCategory::InventorySkuAlreadyExists,
            "An Inventory Item with this SKU already exists.",
        ),
        InventoryApplicationError::Validation(_) => error_with(
            CommandErrorCategory::ValidationError,
            "The Inventory input is invalid.",
        ),
        InventoryApplicationError::Database(_) => CommandError::database(),
    }
}

pub fn invoice_error(error: InvoiceApplicationError) -> (r: CommandError)
    ensures
        match error {
            InvoiceApplicationError::InvoiceNotFound(id) => is_error(
                r,
                CommandErrorCategory::InvoiceNotFound,
                "Invoice "@ + int_text(id as int) + " was not found."@,
            ),
            InvoiceApplicationError::InvoiceAlreadyIssued(id) => is_error(
                r,
                CommandErrorCategory::InvoiceAlreadyIssued,
                "Invoice "@ + int_text(id as int) + " has already been issued."@,
            ),
            InvoiceApplicationError::ServiceVisitNotInvoiceable => is_error(
                r,
                CommandErrorCategory::ServiceVisitNotInvoiceable,
                "Only completed Service Visits can be invoiced."@,
            ),
            InvoiceApplicationError::Validation(_) => is_error(
                r,
                CommandErrorCategory::ValidationError,
                "The supplied Invoice data is invalid."@,
            ),
            InvoiceApplicationError::Database(_) => is_error(
                r,
                CommandErrorCategory::DatabaseError,
                "The workshop database operation failed."@,
            ),
        },
{
    match error {
        InvoiceApplicationError::InvoiceNotFound(id) => CommandError {
            category: CommandErrorCategory::InvoiceNotFound,
            message: message_with_id("Invoice ", id, " was not found."),
        },
        InvoiceApplicationError::InvoiceAlreadyIssued(id) => CommandError {
            category: CommandErrorCategory::InvoiceAlreadyIssued,
            message: message_with_id("Invoice ", id, " has already been issued."),
        },
        InvoiceApplicationError::ServiceVisitNotInvoiceable => error_with(
            CommandErrorCategory::ServiceVisitNotInvoiceable,
            "Only completed Service Visits can be invoiced.",
        ),
        InvoiceApplicationError::Validation(_) => error_with(
            CommandErrorCategory::ValidationError,
            "The supplied Invoice data is invalid.",
        ),
        InvoiceApplicationError::Database(_) => CommandError::database(),
    }
}

/// What the motorcycle details page shows for a motorcycle that is missing.
pub fn motorcycle_not_found() -> (r: CommandError)
    ensures
        is_error(
            r,
            CommandErrorCategory::MotorcycleNotFound,
            "The Motorcycle could not be found."@,
        ),
{
    error_with(CommandErrorCategory::MotorcycleNotFound, "The Motorcycle could not be found.")
}

pub fn motorcycle_registration_error(error: MotorcycleRegistrationError) -> (r: CommandError)
    ensures
        match error {
            MotorcycleRegistrationError::CustomerNotFound(_) => is_error(
                r,
                CommandErrorCategory::CustomerNotFound,
                "The Customer was not found."@,
            ),
            MotorcycleRegistrationError::InvalidTimestamp
            | MotorcycleRegistrationError::InvalidReference(_)
            | MotorcycleRegistrationError::Validation(_) => is_error(
                r,
                CommandErrorCategory::ValidationError,
                "The supplied Motorcycle data is invalid."@,
            ),
            MotorcycleRegistrationError::IdentityAlreadyExists => is_error(
                r,
                CommandErrorCategory::MotorcycleIdentityAlreadyExists,
                "A Motorcycle with this identity already exists."@,
            ),
            MotorcycleRegistrationError::Database(_) => is_error(
                r,
                CommandErrorCategory::DatabaseError,
                "The workshop database operation failed."@,
            ),
        },
{
    match error {
        MotorcycleRegistrationError::CustomerNotFound(_) => error_with(
            CommandErrorCategory::CustomerNotFound,
            "The Customer was not found.",
        ),
        MotorcycleRegistrationError::InvalidTimestamp
        | MotorcycleRegistrationError::InvalidReference(_)
        | MotorcycleRegistrationError::Validation(_) => error_with(
            CommandErrorCategory::ValidationError,
            "The supplied Motorcycle data is invalid.",
        ),
        MotorcycleRegistrationError::IdentityAlreadyExists => error_with(
            CommandErrorCategory::MotorcycleIdentityAlreadyExists,
            "A Motorcycle with this identity already exists.",
        ),
        MotorcycleRegistrationError::Database(_) => CommandError::database(),
    }
}

pub fn service_visit_lookup_error(error: ServiceVisitLookupError) -> (r: CommandError)
    ensures
        match error {
            ServiceVisitLookupError::CustomerNotFound(_) => is_error(
                r,
                CommandErrorCategory::CustomerNotFound,
                "The Customer was not found."@,
            ),
            ServiceVisitLookupError::Database(_) => is_error(
                r,
                CommandErrorCategory::DatabaseError,
                "The workshop database operation failed."@,
            ),
        },
{
    match error {
        ServiceVisitLookupError::CustomerNotFound(_) => error_with(
            CommandErrorCategory::CustomerNotFound,
            "The Customer was not found.",
        ),
        ServiceVisitLookupError::Database(_) => CommandError::database(),
    }
}

/// A refusal of the lifecycle rather than of the data.
pub open spec fn is_lifecycle_refusal(e: ServiceVisitValidationError) -> bool {
    e is InvalidTransition || e is TerminalVisitCannotBeEdited
}

pub fn service_visit_workspace_error(error: ServiceVisitWorkspaceError) -> (r: CommandError)
    ensures
        match error {
            ServiceVisitWorkspaceError::MotorcycleNotFound(id) => is_error(
                r,
                CommandErrorCategory::MotorcycleNotFound,
                "Motorcycle "@ + int_text(id as int) + " was not found."@,
            ),
            ServiceVisitWorkspaceError::ActiveServiceVisitExists(id) => is_error(
                r,
                CommandErrorCategory::ActiveServiceVisitExists,
                "Motorcycle "@ + int_text(id as int) + " already has an active Service Visit."@,
            ),
            ServiceVisitWorkspaceError::ServiceVisitNotFound(id) => is_error(
                r,
                CommandErrorCategory::ServiceVisitNotFound,
                "Service Visit "@ + int_text(id as int) + " was not found."@,
            ),
            ServiceVisitWorkspaceError::InventoryItemNotFound(id) => is_error(
                r,
                CommandErrorCategory::InventoryItemNotFound,
                "Usable Inventory Item "@ + int_text(id as int) + " was not found."@,
            ),
            ServiceVisitWorkspaceError::ServiceVisitPartNotFound {
                service_visit_id,
                service_visit_part_id,
            } => is_error(
                r,
                CommandErrorCategory::ServiceVisitPartNotFound,
                "Service Visit Part "@ + int_text(service_visit_part_id as int)
                    + " was not found on Service Visit "@ + int_text(service_visit_id as int)
                    + "."@,
            ),
            ServiceVisitWorkspaceError::VisitDoesNotAllowPartChanges(_) => is_error(
                r,
                CommandErrorCategory::LifecycleRejected,
                "The Service Visit status does not allow Part changes."@,
            ),
            ServiceVisitWorkspaceError::VisitValidation(e) => if is_lifecycle_refusal(e) {
                is_error(
                    r,
                    CommandErrorCategory::LifecycleRejected,
                    "The Service Visit lifecycle transition is not allowed."@,
                )
            } else {
                is_error(
                    r,
                    CommandErrorCategory::ValidationError,
                    "The supplied Service Visit data is invalid."@,
                )
            },
            ServiceVisitWorkspaceError::PartValidation(_) => is_error(
                r,
                CommandErrorCategory::ValidationError,
                "The supplied Service Visit data is invalid."@,
            ),
            ServiceVisitWorkspaceError::Database(_) => is_error(
                r,
                CommandErrorCategory::DatabaseError,
                "The workshop database operation failed."@,
            ),
        },
{
    match error {
        ServiceVisitWorkspaceError::MotorcycleNotFound(id) => CommandError {
            category: CommandErrorCategory::MotorcycleNotFound,
            message: message_with_id("Motorcycle ", id, " was not found."),
        },
        ServiceVisitWorkspaceError::ActiveServiceVisitExists(id) => CommandError {
            category: CommandErrorCategory::ActiveServiceVisitExists,
            message: message_with_id("Motorcycle ", id, " already has an active Service Visit."),
        },
        ServiceVisitWorkspaceError::ServiceVisitNotFound(id) => CommandError {
            category: CommandErrorCategory::ServiceVisitNotFound,
            message: message_with_id("Service Visit ", id, " was not found."),
        },
        ServiceVisitWorkspaceError::InventoryItemNotFound(id) => CommandError {
            category: CommandErrorCategory::InventoryItemNotFound,
            message: message_with_id("Usable Inventory Item ", id, " was not found."),
        },
        ServiceVisitWorkspaceError::ServiceVisitPartNotFound {
            service_visit_id,
            service_visit_part_id,
        } => CommandError {
            category: CommandErrorCategory::ServiceVisitPartNotFound,
            message: message_with_two_ids(
                "Service Visit Part ",
                service_visit_part_id,
                " was not found on Service Visit ",
                service_visit_id,
                ".",
            ),
        },
        ServiceVisitWorkspaceError::VisitDoesNotAllowPartChanges(_) => error_with(
            CommandErrorCategory::LifecycleRejected,
            "The Service Visit status does not allow Part changes.",
        ),
        ServiceVisitWorkspaceError::VisitValidation(
            ServiceVisitValidationError::InvalidTransition { .. }
            | ServiceVisitValidationError::TerminalVisitCannotBeEdited,
        ) => error_with(
            CommandErrorCategory::LifecycleRejected,
            "The Service Visit lifecycle transition is not allowed.",
        ),
        ServiceVisitWorkspaceError::VisitValidation(_)
        | ServiceVisitWorkspaceError::PartValidation(_) => error_with(
            CommandErrorCategory::ValidationError,
            "The supplied Service Visit data is invalid.",
        ),
        ServiceVisitWorkspaceError::Database(_) => CommandError::database(),
    }
}

} // verus!

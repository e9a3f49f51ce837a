//! How the use cases describe their failures in words: the message of each
//! application error, with the inner domain error written as its derived
//! `Debug` writes it.

use vstd::prelude::*;

use crate::application::database_failure_prefix;
use crate::application::customer::CustomerApplicationError;
use crate::application::customer_details::CustomerDetailsApplicationError;
use crate::application::dashboard::DashboardApplicationError;
use crate::application::inventory::InventoryApplicationError;
use crate::application::invoice::InvoiceApplicationError;
use crate::application::motorcycle_directory::MotorcycleDirectoryApplicationError;
use crate::application::motorcycle_registration::{
    MotorcycleRegistrationError, MotorcycleRegistrationReference,
};
use crate::application::service_visit_directory::ServiceVisitDirectoryApplicationError;
use crate::application::service_visit_lookup::ServiceVisitLookupError;
use crate::application::service_visit_workspace::ServiceVisitWorkspaceError;
use crate::domain::customer::CustomerValidationError;
use crate::domain::invoice::InvoiceIssueError;
use crate::domain::motorcycle::{
    ChassisNumberValidationError, MotorcycleValidationError, PlateNumberValidationError,
    VinValidationError,
};
use crate::domain::service_visit::{
    ServiceVisitStatus, ServiceVisitTextField, ServiceVisitValidationError,
};
use crate::domain::service_visit_part::{ServiceVisitPartTextField, ServiceVisitPartValidationError};
use crate::text::{int_text, int_to_text, join2, join3, join4, join5};

verus! {

/// `ServiceVisitStatus` as its derived `Debug` writes it.
pub open spec fn visit_status_debug(value: ServiceVisitStatus) -> Seq<char> {
    match value {
        ServiceVisitStatus::Open => "Open"@,
        ServiceVisitStatus::ReadyForPickup => "ReadyForPickup"@,
        ServiceVisitStatus::Closed => "Closed"@,
        ServiceVisitStatus::Cancelled => "Cancelled"@,
    }
}

fn visit_status_debug_text(value: ServiceVisitStatus) -> (r: &'static str)
    ensures
        r@ == visit_status_debug(value),
{
    match value {
        ServiceVisitStatus::Open => "Open",
        ServiceVisitStatus::ReadyForPickup => "ReadyForPickup",
        ServiceVisitStatus::Closed => "Closed",
        ServiceVisitStatus::Cancelled => "Cancelled",
    }
}

/// `ServiceVisitTextField` as its derived `Debug` writes it.
pub open spec fn visit_field_debug(value: ServiceVisitTextField) -> Seq<char> {
    match value {
        ServiceVisitTextField::CustomerComplaint => "CustomerComplaint"@,
        ServiceVisitTextField::Diagnosis => "Diagnosis"@,
        ServiceVisitTextField::WorkPerformed => "WorkPerformed"@,
        ServiceVisitTextField::CancellationReason => "CancellationReason"@,
        ServiceVisitTextField::Notes => "Notes"@,
    }
}

fn visit_field_debug_text(value: ServiceVisitTextField) -> (r: &'static str)
    ensures
        r@ == visit_field_debug(value),
{
    match value {
        ServiceVisitTextField::CustomerComplaint => "CustomerComplaint",
        ServiceVisitTextField::Diagnosis => "Diagnosis",
        ServiceVisitTextField::WorkPerformed => "WorkPerformed",
        ServiceVisitTextField::CancellationReason => "CancellationReason",
        ServiceVisitTextField::Notes => "Notes",
    }
}

/// `ServiceVisitPartTextField` as its derived `Debug` writes it.
pub open spec fn part_field_debug(value: ServiceVisitPartTextField) -> Seq<char> {
    match value {
        ServiceVisitPartTextField::ItemName => "ItemName"@,
        ServiceVisitPartTextField::UnitName => "UnitName"@,
        ServiceVisitPartTextField::VoidReason => "VoidReason"@,
    }
}

fn part_field_debug_text(value: ServiceVisitPartTextField) -> (r: &'static str)
    ensures
        r@ == part_field_debug(value),
{
    match value {
        ServiceVisitPartTextField::ItemName => "ItemName",
        ServiceVisitPartTextField::UnitName => "UnitName",
        ServiceVisitPartTextField::VoidReason => "VoidReason",
    }
}

/// `PlateNumberValidationError` as its derived `Debug` writes it.
pub open spec fn plate_error_debug(value: PlateNumberValidationError) -> Seq<char> {
    match value {
        PlateNumberValidationError::Blank => "Blank"@,
        PlateNumberValidationError::InvalidCharacter => "InvalidCharacter"@,
        PlateNumberValidationError::InvalidFormat => "InvalidFormat"@,
    }
}

fn plate_error_debug_text(value: PlateNumberValidationError) -> (r: &'static str)
    ensures
        r@ == plate_error_debug(value),
{
    match value {
        PlateNumberValidationError::Blank => "Blank",
        PlateNumberValidationError::InvalidCharacter => "InvalidCharacter",
        PlateNumberValidationError::InvalidFormat => "InvalidFormat",
    }
}

/// `VinValidationError` as its derived `Debug` writes it.
pub open spec fn vin_error_debug(value: VinValidationError) -> Seq<char> {
    match value {
        VinValidationError::Blank => "Blank"@,
        VinValidationError::InvalidLength => "InvalidLength"@,
        VinValidationError::InvalidCharacter => "InvalidCharacter"@,
    }
}

fn vin_error_debug_text(value: VinValidationError) -> (r: &'static str)
    ensures
        r@ == vin_error_debug(value),
{
    match value {
        VinValidationError::Blank => "Blank",
        VinValidationError::InvalidLength => "InvalidLength",
        VinValidationError::InvalidCharacter => "InvalidCharacter",
    }
}

/// `ChassisNumberValidationError` as its derived `Debug` writes it.
pub open spec fn chassis_error_debug(value: ChassisNumberValidationError) -> Seq<char> {
    match value {
        ChassisNumberValidationError::Blank => "Blank"@,
        ChassisNumberValidationError::InvalidLength => "InvalidLength"@,
        ChassisNumberValidationError::InvalidCharacter => "InvalidCharacter"@,
    }
}

fn chassis_error_debug_text(value: ChassisNumberValidationError) -> (r: &'static str)
    ensures
        r@ == chassis_error_debug(value),
{
    match value {
        ChassisNumberValidationError::Blank => "Blank",
        ChassisNumberValidationError::InvalidLength => "InvalidLength",
        ChassisNumberValidationError::InvalidCharacter => "InvalidCharacter",
    }
}

/// `CustomerValidationError` as its derived `Debug` writes it.
pub open spec fn customer_error_debug(value: CustomerValidationError) -> Seq<char> {
    match value {
        CustomerValidationError::BlankName => "BlankName"@,
        CustomerValidationError::BlankPhone => "BlankPhone"@,
    }
}

fn customer_error_debug_text(value: CustomerValidationError) -> (r: &'static str)
    ensures
        r@ == customer_error_debug(value),
{
    match value {
        CustomerValidationError::BlankName => "BlankName",
        CustomerValidationError::BlankPhone => "BlankPhone",
    }
}

/// `InvoiceIssueError` as its derived `Debug` writes it.
pub open spec fn invoice_error_debug(value: InvoiceIssueError) -> Seq<char> {
    match value {
        InvoiceIssueError::InvalidInvoiceId => "InvalidInvoiceId"@,
        InvoiceIssueError::InvalidServiceVisitId => "InvalidServiceVisitId"@,
        InvoiceIssueError::ServiceVisitNotInvoiceable => "ServiceVisitNotInvoiceable"@,
        InvoiceIssueError::InvalidTimestamp => "InvalidTimestamp"@,
        InvoiceIssueError::InvalidMoney => "InvalidMoney"@,
        InvoiceIssueError::TotalOverflow => "TotalOverflow"@,
    }
}

fn invoice_error_debug_text(value: InvoiceIssueError) -> (r: &'static str)
    ensures
        r@ == invoice_error_debug(value),
{
    match value {
        InvoiceIssueError::InvalidInvoiceId => "InvalidInvoiceId",
        InvoiceIssueError::InvalidServiceVisitId => "InvalidServiceVisitId",
        InvoiceIssueError::ServiceVisitNotInvoiceable => "ServiceVisitNotInvoiceable",
        InvoiceIssueError::InvalidTimestamp => "InvalidTimestamp",
        InvoiceIssueError::InvalidMoney => "InvalidMoney",
        InvoiceIssueError::TotalOverflow => "TotalOverflow",
    }
}

/// `MotorcycleRegistrationReference` as its derived `Debug` writes it.
pub open spec fn reference_debug(value: MotorcycleRegistrationReference) -> Seq<char> {
    match value {
        MotorcycleRegistrationReference::Make => "Make"@,
        MotorcycleRegistrationReference::Color => "Color"@,
    }
}

fn reference_debug_text(value: MotorcycleRegistrationReference) -> (r: &'static str)
    ensures
        r@ == reference_debug(value),
{
    match value {
        MotorcycleRegistrationReference::Make => "Make",
        MotorcycleRegistrationReference::Color => "Color",
    }
}

/// `MotorcycleValidationError` as its derived `Debug` writes it.
pub open spec fn motorcycle_error_debug(value: MotorcycleValidationError) -> Seq<char> {
    match value {
        MotorcycleValidationError::BlankModel => "BlankModel"@,
        MotorcycleValidationError::ModelTooLong => "ModelTooLong"@,
        MotorcycleValidationError::ModelContainsControlCharacter => "ModelContainsControlCharacter"@,
        MotorcycleValidationError::InvalidYear => "InvalidYear"@,
        MotorcycleValidationError::InvalidPlateNumber(inner) => "InvalidPlateNumber("@ + plate_error_debug(inner) + ")"@,
        MotorcycleValidationError::InvalidVin(inner) => "InvalidVin("@ + vin_error_debug(inner) + ")"@,
        MotorcycleValidationError::InvalidChassisNumber(inner) => "InvalidChassisNumber("@ + chassis_error_debug(inner) + ")"@,
        MotorcycleValidationError::NotesTooLong => "NotesTooLong"@,
    }
}

fn motorcycle_error_debug_text(value: MotorcycleValidationError) -> (r: String)
    ensures
        r@ == motorcycle_error_debug(value),
{
    match value {
        MotorcycleValidationError::BlankModel => "BlankModel".to_string(),
        MotorcycleValidationError::ModelTooLong => "ModelTooLong".to_string(),
        MotorcycleValidationError::ModelContainsControlCharacter => "ModelContainsControlCharacter".to_string(),
        MotorcycleValidationError::InvalidYear => "InvalidYear".to_string(),
        MotorcycleValidationError::InvalidPlateNumber(inner) => join3("InvalidPlateNumber(", plate_error_debug_text(inner), ")"),
        MotorcycleValidationError::InvalidVin(inner) => join3("InvalidVin(", vin_error_debug_text(inner), ")"),
        MotorcycleValidationError::InvalidChassisNumber(inner) => join3("InvalidChassisNumber(", chassis_error_debug_text(inner), ")"),
        MotorcycleValidationError::NotesTooLong => "NotesTooLong".to_string(),
    }
}

/// `ServiceVisitValidationError` as its derived `Debug` writes it.
pub open spec fn visit_error_debug(value: ServiceVisitValidationError) -> Seq<char> {
    match value {
        ServiceVisitValidationError::InvalidMotorcycleId => "InvalidMotorcycleId"@,
        ServiceVisitValidationError::InvalidOwnerCustomerId => "InvalidOwnerCustomerId"@,
        ServiceVisitValidationError::InvalidTimestamp => "InvalidTimestamp"@,
        ServiceVisitValidationError::InvalidOdometer => "InvalidOdometer"@,
        ServiceVisitValidationError::BlankComplaint => "BlankComplaint"@,
        ServiceVisitValidationError::BlankCancellationReason => "BlankCancellationReason"@,
        ServiceVisitValidationError::TextTooLong(inner) => "TextTooLong("@ + visit_field_debug(inner) + ")"@,
        ServiceVisitValidationError::TextContainsControlCharacter(inner) => "TextContainsControlCharacter("@ + visit_field_debug(inner) + ")"@,
        ServiceVisitValidationError::NegativeLaborCharge => "NegativeLaborCharge"@,
        ServiceVisitValidationError::MissingWorkPerformed => "MissingWorkPerformed"@,
        ServiceVisitValidationError::InvalidTransition { from, to } => "InvalidTransition { from: "@ + visit_status_debug(from) + ", to: "@
            + visit_status_debug(to) + " }"@,
        ServiceVisitValidationError::TerminalVisitCannotBeEdited => "TerminalVisitCannotBeEdited"@,
    }
}

fn visit_error_debug_text(value: ServiceVisitValidationError) -> (r: String)
    ensures
        r@ == visit_error_debug(value),
{
    match value {
        ServiceVisitValidationError::InvalidMotorcycleId => "InvalidMotorcycleId".to_string(),
        ServiceVisitValidationError::InvalidOwnerCustomerId => "InvalidOwnerCustomerId".to_string(),
        ServiceVisitValidationError::InvalidTimestamp => "InvalidTimestamp".to_string(),
        ServiceVisitValidationError::InvalidOdometer => "InvalidOdometer".to_string(),
        ServiceVisitValidationError::BlankComplaint => "BlankComplaint".to_string(),
        ServiceVisitValidationError::BlankCancellationReason => "BlankCancellationReason".to_string(),
        ServiceVisitValidationError::TextTooLong(inner) => join3("TextTooLong(", visit_field_debug_text(inner), ")"),
        ServiceVisitValidationError::TextContainsControlCharacter(inner) => join3("TextContainsControlCharacter(", visit_field_debug_text(inner), ")"),
        ServiceVisitValidationError::NegativeLaborCharge => "NegativeLaborCharge".to_string(),
        ServiceVisitValidationError::MissingWorkPerformed => "MissingWorkPerformed".to_string(),
        ServiceVisitValidationError::InvalidTransition { from, to } => join5(
            "InvalidTransition { from: ",
            visit_status_debug_text(from),
            ", to: ",
            visit_status_debug_text(to),
            " }",
        ),
        ServiceVisitValidationError::TerminalVisitCannotBeEdited => "TerminalVisitCannotBeEdited".to_string(),
    }
}

/// `ServiceVisitPartValidationError` as its derived `Debug` writes it.
pub open spec fn part_error_debug(value: ServiceVisitPartValidationError) -> Seq<char> {
    match value {
        ServiceVisitPartValidationError::InvalidServiceVisitId => "InvalidServiceVisitId"@,
        ServiceVisitPartValidationError::InvalidInventoryItemId => "InvalidInventoryItemId"@,
        ServiceVisitPartValidationError::BlankItemName => "BlankItemName"@,
        ServiceVisitPartValidationError::BlankUnitName => "BlankUnitName"@,
        ServiceVisitPartValidationError::InvalidQuantity => "InvalidQuantity"@,
        ServiceVisitPartValidationError::InvalidQuantityScale => "InvalidQuantityScale"@,
        ServiceVisitPartValidationError::InvalidUnitPrice => "InvalidUnitPrice"@,
        ServiceVisitPartValidationError::InvalidTimestamp => "InvalidTimestamp"@,
        ServiceVisitPartValidationError::CalculationOverflow => "CalculationOverflow"@,
        ServiceVisitPartValidationError::PartAlreadyVoided => "PartAlreadyVoided"@,
        ServiceVisitPartValidationError::TextTooLong(inner) => "TextTooLong("@ + part_field_debug(inner) + ")"@,
        ServiceVisitPartValidationError::TextContainsControlCharacter(inner) => "TextContainsControlCharacter("@ + part_field_debug(inner) + ")"@,
    }
}

fn part_error_debug_text(value: ServiceVisitPartValidationError) -> (r: String)
    ensures
        r@ == part_error_debug(value),
{
    match value {
        ServiceVisitPartValidationError::InvalidServiceVisitId => "InvalidServiceVisitId".to_string(),
        ServiceVisitPartValidationError::InvalidInventoryItemId => "InvalidInventoryItemId".to_string(),
        ServiceVisitPartValidationError::BlankItemName => "BlankItemName".to_string(),
        ServiceVisitPartValidationError::BlankUnitName => "BlankUnitName".to_string(),
        ServiceVisitPartValidationError::InvalidQuantity => "InvalidQuantity".to_string(),
        ServiceVisitPartValidationError::InvalidQuantityScale => "InvalidQuantityScale".to_string(),
        ServiceVisitPartValidationError::InvalidUnitPrice => "InvalidUnitPrice".to_string(),
        ServiceVisitPartValidationError::InvalidTimestamp => "InvalidTimestamp".to_string(),
        ServiceVisitPartValidationError::CalculationOverflow => "CalculationOverflow".to_string(),
        ServiceVisitPartValidationError::PartAlreadyVoided => "PartAlreadyVoided".to_string(),
        ServiceVisitPartValidationError::TextTooLong(inner) => join3("TextTooLong(", part_field_debug_text(inner), ")"),
        ServiceVisitPartValidationError::TextContainsControlCharacter(inner) => join3("TextContainsControlCharacter(", part_field_debug_text(inner), ")"),
    }
}

impl CustomerApplicationError {
    /// The message this error is described with.
    pub fn message(&self) -> (r: String)
        ensures
            match self {
                CustomerApplicationError::InvalidTimestamp => r@ == "customer timestamp is invalid"@,
                CustomerApplicationError::Validation(e) => r@ == "invalid customer: "@
                    + customer_error_debug(*e),
                CustomerApplicationError::PhoneAlreadyExists => r@
                    == "customer phone already exists"@,
                CustomerApplicationError::Database(e) => r@ == database_failure_prefix() + e.text@,
            },
    {
        match self {
            CustomerApplicationError::InvalidTimestamp => "customer timestamp is invalid".to_string(),
            CustomerApplicationError::Validation(e) => join2(
                "invalid customer: ",
                customer_error_debug_text(*e)
            ),
            CustomerApplicationError::PhoneAlreadyExists => "customer phone already exists".to_string(),
            CustomerApplicationError::Database(error) => error.message(),
        }
    }
}

impl CustomerDetailsApplicationError {
    /// The message this error is described with.
    pub fn message(&self) -> (r: String)
        ensures
            match self {
                CustomerDetailsApplicationError::Database(e) => r@ == database_failure_prefix() + e.text@,
            },
    {
        match self {
            CustomerDetailsApplicationError::Database(error) => error.message(),
        }
    }
}

impl DashboardApplicationError {
    /// The message this error is described with.
    pub fn message(&self) -> (r: String)
        ensures
            match self {
                DashboardApplicationError::InvalidDayRange => r@
                    == "invalid local calendar day range"@,
                DashboardApplicationError::Database(e) => r@ == database_failure_prefix() + e.text@,
            },
    {
        match self {
            DashboardApplicationError::InvalidDayRange => "invalid local calendar day range".to_string(),
            DashboardApplicationError::Database(error) => error.message(),
        }
    }
}

impl InventoryApplicationError {
    /// The message this error is described with: the same for every cause.
    pub fn message(&self) -> (r: String)
        ensures
            r@ == "inventory operation failed"@,
    {
        "inventory operation failed".to_string()
    }
}

impl InvoiceApplicationError {
    /// The message this error is described with.
    pub fn message(&self) -> (r: String)
        ensures
            match self {
                InvoiceApplicationError::InvoiceNotFound(id) => r@ == "invoice "@ + int_text(
                    *id as int,
                ) + " was not found"@,
                InvoiceApplicationError::InvoiceAlreadyIssued(id) => r@ == "invoice "@ + int_text(
                    *id as int,
                ) + " is already issued"@,
                InvoiceApplicationError::ServiceVisitNotInvoiceable => r@
                    == "service visit is not ready for invoicing"@,
                InvoiceApplicationError::Validation(e) => r@ == "invalid invoice: "@
                    + invoice_error_debug(*e),
                InvoiceApplicationError::Database(e) => r@ == database_failure_prefix() + e.text@,
            },
    {
        match self {
            InvoiceApplicationError::InvoiceNotFound(id) => join3(
                "invoice ",
                int_to_text(*id).as_str(),
                " was not found",
            ),
            InvoiceApplicationError::InvoiceAlreadyIssued(id) => join3(
                "invoice ",
                int_to_text(*id).as_str(),
                " is already issued",
            ),
            InvoiceApplicationError::ServiceVisitNotInvoiceable => "service visit is not ready for invoicing".to_string(),
            InvoiceApplicationError::Validation(e) => join2(
                "invalid invoice: ",
                invoice_error_debug_text(*e)
            ),
            InvoiceApplicationError::Database(error) => error.message(),
        }
    }
}

impl MotorcycleDirectoryApplicationError {
    /// The message this error is described with.
    pub fn message(&self) -> (r: String)
        ensures
            r@ == database_failure_prefix() + self.0.text@,
    {
        self.0.message()
    }
}

impl MotorcycleRegistrationError {
    /// The message this error is described with.
    pub fn message(&self) -> (r: String)
        ensures
            match self {
                MotorcycleRegistrationError::InvalidTimestamp => r@
                    == "motorcycle timestamp is invalid"@,
                MotorcycleRegistrationError::CustomerNotFound(id) => r@ == "customer "@ + int_text(
                    *id as int,
                ) + " was not found"@,
                MotorcycleRegistrationError::InvalidReference(reference) => r@
                    == "motorcycle reference "@ + reference_debug(*reference) + " is invalid"@,
                MotorcycleRegistrationError::Validation(e) => r@ == "invalid motorcycle: "@
                    + motorcycle_error_debug(*e),
                MotorcycleRegistrationError::IdentityAlreadyExists => r@
                    == "motorcycle identity already exists"@,
                MotorcycleRegistrationError::Database(e) => r@ == database_failure_prefix() + e.text@,
            },
    {
        match self {
            MotorcycleRegistrationError::InvalidTimestamp => "motorcycle timestamp is invalid".to_string(),
            MotorcycleRegistrationError::CustomerNotFound(id) => join3(
                "customer ",
                int_to_text(*id).as_str(),
                " was not found",
            ),
            MotorcycleRegistrationError::InvalidReference(reference) => join3(
                "motorcycle reference ",
                reference_debug_text(*reference),
                " is invalid",
            ),
            MotorcycleRegistrationError::Validation(e) => join2(
                "invalid motorcycle: ",
                motorcycle_error_debug_text(*e).as_str()
            ),
            MotorcycleRegistrationError::IdentityAlreadyExists => "motorcycle identity already exists".to_string(),
            MotorcycleRegistrationError::Database(error) => error.message(),
        }
    }
}

impl ServiceVisitDirectoryApplicationError {
    /// The message this error is described with.
    pub fn message(&self) -> (r: String)
        ensures
            r@ == database_failure_prefix() + self.0.text@,
    {
        self.0.message()
    }
}

impl ServiceVisitLookupError {
    /// The message this error is described with.
    pub fn message(&self) -> (r: String)
        ensures
            match self {
                ServiceVisitLookupError::CustomerNotFound(id) => r@ == "customer "@ + int_text(
                    *id as int,
                ) + " was not found"@,
                ServiceVisitLookupError::Database(e) => r@ == database_failure_prefix() + e.text@,
            },
    {
        match self {
            ServiceVisitLookupError::CustomerNotFound(id) => join3(
                "customer ",
                int_to_text(*id).as_str(),
                " was not found",
            ),
            ServiceVisitLookupError::Database(error) => error.message(),
        }
    }
}

impl ServiceVisitWorkspaceError {
    /// The message this error is described with.
    pub fn message(&self) -> (r: String)
        ensures
            match self {
                ServiceVisitWorkspaceError::MotorcycleNotFound(id) => r@ == "motorcycle "@
                    + int_text(*id as int) + " was not found"@,
                ServiceVisitWorkspaceError::ActiveServiceVisitExists(id) => r@ == "motorcycle "@
                    + int_text(*id as int) + " already has an active service visit"@,
                ServiceVisitWorkspaceError::ServiceVisitNotFound(id) => r@ == "service visit "@
                    + int_text(*id as int) + " was not found"@,
                ServiceVisitWorkspaceError::InventoryItemNotFound(id) => r@
                    == "usable inventory item "@ + int_text(*id as int) + " was not found"@,
                ServiceVisitWorkspaceError::ServiceVisitPartNotFound {
                    service_visit_id,
                    service_visit_part_id,
                } => r@ == "service visit part "@ + int_text(*service_visit_part_id as int)
                    + " was not found on visit "@ + int_text(*service_visit_id as int),
                ServiceVisitWorkspaceError::VisitDoesNotAllowPartChanges(status) => r@
                    == "service visit status "@ + visit_status_debug(*status)
                    + " does not allow part changes"@,
                ServiceVisitWorkspaceError::VisitValidation(e) => r@ == "invalid service visit: "@
                    + visit_error_debug(*e),
                ServiceVisitWorkspaceError::PartValidation(e) => r@
                    == "invalid service visit part: "@ + part_error_debug(*e),
                ServiceVisitWorkspaceError::Database(e) => r@ == database_failure_prefix() + e.text@,
            },
    {
        match self {
            ServiceVisitWorkspaceError::MotorcycleNotFound(id) => join3(
                "motorcycle ",
                int_to_text(*id).as_str(),
                " was not found",
            ),
            ServiceVisitWorkspaceError::ActiveServiceVisitExists(id) => join3(
                "motorcycle ",
                int_to_text(*id).as_str(),
                " already has an active service visit",
            ),
            ServiceVisitWorkspaceError::ServiceVisitNotFound(id) => join3(
                "service visit ",
                int_to_text(*id).as_str(),
                " was not found",
            ),
            ServiceVisitWorkspaceError::InventoryItemNotFound(id) => join3(
                "usable inventory item ",
                int_to_text(*id).as_str(),
                " was not found",
            ),
            ServiceVisitWorkspaceError::ServiceVisitPartNotFound {
                service_visit_id,
                service_visit_part_id,
            } => join4(
                "service visit part ",
                int_to_text(*service_visit_part_id).as_str(),
                " was not found on visit ",
                int_to_text(*service_visit_id).as_str(),
            ),
            ServiceVisitWorkspaceError::VisitDoesNotAllowPartChanges(status) => join3(
                "service visit status ",
                visit_status_debug_text(*status),
                " does not allow part changes",
            ),
            ServiceVisitWorkspaceError::VisitValidation(e) => join2(
                "invalid service visit: ",
                visit_error_debug_text(*e).as_str()
            ),
            ServiceVisitWorkspaceError::PartValidation(e) => join2(
                "invalid service visit part: ",
                part_error_debug_text(*e).as_str()
            ),
            ServiceVisitWorkspaceError::Database(error) => error.message(),
        }
    }
}

} // verus!

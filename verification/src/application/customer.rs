//! Registering a customer.

use vstd::prelude::*;

use crate::application::DatabaseError;

use crate::domain::customer::{
    new_customer_outcome, CustomerValidationError, NewCustomer, NewCustomerView,
};
use crate::text::opt_chars;

verus! {

#[derive(Debug, PartialEq, Eq)]
pub struct CreateCustomerInput {
    pub name: String,
    pub phone: String,
    pub notes: Option<String>,
    pub created_at: i64,
}

#[derive(Debug, Clone, PartialEq, Eq)]
pub struct CustomerSummary {
    pub id: i64,
    pub name: String,
    pub phone: String,
}

#[derive(Debug)]
pub enum CustomerApplicationError {
    InvalidTimestamp,
    Validation(CustomerValidationError),
    PhoneAlreadyExists,
    Database(DatabaseError),
}

/// How a refused insert of a customer is reported: a duplicate in a unique
/// column is an existing phone number, any other failure stays as it came.
pub fn customer_insert_failure(error: DatabaseError) -> (r: CustomerApplicationError)
    ensures
        error.is_unique_violation_spec() ==> r is PhoneAlreadyExists,
        !error.is_unique_violation_spec() ==> r == CustomerApplicationError::Database(error),
{
    if error.is_unique_violation() {
        CustomerApplicationError::PhoneAlreadyExists
    } else {
        CustomerApplicationError::Database(error)
    }
}

/// Checks a registration before anything is written: the creation time must
/// not be negative and the customer must be valid.
pub fn prepare_customer(input: CreateCustomerInput) -> (r: Result<
    (NewCustomer, i64),
    CustomerApplicationError,
>)
    ensures
        input.created_at < 0 ==> r matches Err(CustomerApplicationError::InvalidTimestamp),
        input.created_at >= 0 ==> match new_customer_outcome(
            input.name@,
            input.phone@,
            opt_chars(input.notes),
        ) {
            Ok(view) => r matches Ok((c, at)) && c@ == view && at == input.created_at,
            Err(e) => r matches Err(CustomerApplicationError::Validation(f)) && f == e,
        },
{
    if input.created_at < 0 {
        return Err(CustomerApplicationError::InvalidTimestamp);
    }
    match NewCustomer::new(input.name, input.phone, input.notes) {
        Ok(customer) => Ok((customer, input.created_at)),
        Err(e) => Err(CustomerApplicationError::Validation(e)),
    }
}

} // verus!

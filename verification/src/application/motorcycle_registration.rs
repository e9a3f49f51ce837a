//! Registering a motorcycle for a customer.

use vstd::prelude::*;

use crate::application::DatabaseError;

use crate::domain::motorcycle::{
    new_motorcycle_outcome, MotorcycleValidationError, NewMotorcycle, NewMotorcycleInput,
};

verus! {

#[derive(Debug, Clone, PartialEq, Eq)]
pub struct MotorcycleMakeReference {
    pub id: i64,
    pub name: String,
}

#[derive(Debug, Clone, PartialEq, Eq)]
pub struct MotorcycleColorReference {
    pub id: i64,
    pub name: String,
}

#[derive(Debug, Clone, PartialEq, Eq)]
pub struct MotorcycleRegistrationReferenceData {
    pub makes: Vec<MotorcycleMakeReference>,
    pub colors: Vec<MotorcycleColorReference>,
}

#[derive(Debug, PartialEq, Eq)]
pub struct CreateMotorcycleInput {
    pub customer_id: i64,
    pub make_id: i64,
    pub model: String,
    pub year: Option<i32>,
    pub plate_number: String,
    pub vin: Option<String>,
    pub chassis_number: Option<String>,
    pub color_id: i64,
    pub notes: Option<String>,
    pub created_at: i64,
}

#[derive(Debug, Clone, Copy, PartialEq, Eq)]
pub enum MotorcycleRegistrationReference {
    Make,
    Color,
}

#[derive(Debug)]
pub enum MotorcycleRegistrationError {
    InvalidTimestamp,
    CustomerNotFound(i64),
    InvalidReference(MotorcycleRegistrationReference),
    Validation(MotorcycleValidationError),
    IdentityAlreadyExists,
    Database(DatabaseError),
}

/// How a refused insert of a motorcycle is reported: a duplicate in a unique
/// column is an identity already registered, any other failure stays as it
/// came.
pub fn motorcycle_insert_failure(error: DatabaseError) -> (r: MotorcycleRegistrationError)
    ensures
        error.is_unique_violation_spec() ==> r is IdentityAlreadyExists,
        !error.is_unique_violation_spec() ==> r == MotorcycleRegistrationError::Database(error),
{
    if error.is_unique_violation() {
        MotorcycleRegistrationError::IdentityAlreadyExists
    } else {
        MotorcycleRegistrationError::Database(error)
    }
}

/// Checks that a registration can go ahead: a non-negative time, an existing
/// customer, an active make and an active colour, in that order.
pub fn check_registration(
    created_at: i64,
    customer_id: i64,
    customer_exists: bool,
    make_exists: bool,
    color_exists: bool,
) -> (r: Result<(), MotorcycleRegistrationError>)
    ensures
        created_at < 0 ==> r matches Err(MotorcycleRegistrationError::InvalidTimestamp),
        created_at >= 0 && !customer_exists ==> (r matches Err(
            MotorcycleRegistrationError::CustomerNotFound(id),
        ) && id == customer_id),
        created_at >= 0 && customer_exists && !make_exists ==> r matches Err(
            MotorcycleRegistrationError::InvalidReference(MotorcycleRegistrationReference::Make),
        ),
        created_at >= 0 && customer_exists && make_exists && !color_exists ==> r matches Err(
            MotorcycleRegistrationError::InvalidReference(MotorcycleRegistrationReference::Color),
        ),
        created_at >= 0 && customer_exists && make_exists && color_exists ==> r is Ok,
{
    if created_at < 0 {
        return Err(MotorcycleRegistrationError::InvalidTimestamp);
    }
    if !customer_exists {
        return Err(MotorcycleRegistrationError::CustomerNotFound(customer_id));
    }
    if !make_exists {
        return Err(
            MotorcycleRegistrationError::InvalidReference(MotorcycleRegistrationReference::Make),
        );
    }
    if !color_exists {
        return Err(
            MotorcycleRegistrationError::InvalidReference(MotorcycleRegistrationReference::Color),
        );
    }
    Ok(())
}

/// The motorcycle part of a registration request.
pub open spec fn motorcycle_input_of(input: CreateMotorcycleInput) -> NewMotorcycleInput {
    NewMotorcycleInput {
        make_id: input.make_id,
        model: input.model,
        year: input.year,
        plate_number: input.plate_number,
        vin: input.vin,
        chassis_number: input.chassis_number,
        color_id: input.color_id,
        notes: input.notes,
    }
}

/// The motorcycle to insert, validated against the current local year.
pub fn prepare_motorcycle(input: CreateMotorcycleInput, current_year: i32) -> (r: Result<
    NewMotorcycle,
    MotorcycleRegistrationError,
>)
    ensures
        match new_motorcycle_outcome(motorcycle_input_of(input), current_year) {
            Ok(v) => r matches Ok(m) && m@ == v,
            Err(e) => r matches Err(MotorcycleRegistrationError::Validation(f)) && f == e,
        },
{
    let motorcycle_input = NewMotorcycleInput {
        make_id: input.make_id,
        model: input.model,
        year: input.year,
        plate_number: input.plate_number,
        vin: input.vin,
        chassis_number: input.chassis_number,
        color_id: input.color_id,
        notes: input.notes,
    };
    assert(motorcycle_input == motorcycle_input_of(input));
    match NewMotorcycle::new(motorcycle_input, current_year) {
        Ok(motorcycle) => Ok(motorcycle),
        Err(e) => Err(MotorcycleRegistrationError::Validation(e)),
    }
}

} // verus!

//! A service visit of a motorcycle and its lifecycle: open, ready for pickup,
//! closed or cancelled.

use vstd::prelude::*;

use crate::text::{
    check_text, fits_field, kept_text, opt_as_str, opt_chars, text_fault, trim_is_idempotent, trim_text, trimmed, TextFault,
};

verus! {

pub const MAX_ODOMETER_KM: i64 = 9_999_999;

#[derive(Debug, Clone, Copy, PartialEq, Eq, Structural)]
pub enum ServiceVisitStatus {
    Open,
    ReadyForPickup,
    Closed,
    Cancelled,
}

#[derive(Debug, Clone, Copy, PartialEq, Eq)]
pub enum ServiceVisitTextField {
    CustomerComplaint,
    Diagnosis,
    WorkPerformed,
    CancellationReason,
    Notes,
}

#[derive(Debug, Clone, Copy, PartialEq, Eq)]
pub enum ServiceVisitValidationError {
    InvalidMotorcycleId,
    InvalidOwnerCustomerId,
    InvalidTimestamp,
    InvalidOdometer,
    BlankComplaint,
    BlankCancellationReason,
    TextTooLong(ServiceVisitTextField),
    TextContainsControlCharacter(ServiceVisitTextField),
    NegativeLaborCharge,
    MissingWorkPerformed,
    InvalidTransition { from: ServiceVisitStatus, to: ServiceVisitStatus },
    TerminalVisitCannotBeEdited,
}

#[derive(Debug, PartialEq, Eq)]
pub struct NewServiceVisitInput {
    pub motorcycle_id: i64,
    pub owner_customer_id: i64,
    pub opened_at: i64,
    pub odometer_km: Option<i64>,
    pub customer_complaint: String,
    pub notes: Option<String>,
}

#[derive(Debug, PartialEq, Eq)]
pub struct ServiceVisitDetailsInput {
    pub diagnosis: Option<String>,
    pub work_performed: Option<String>,
    pub labor_charge_fils: i64,
    pub notes: Option<String>,
    pub odometer_km: Option<i64>,
}

#[derive(Debug, PartialEq, Eq)]
pub struct ServiceVisit {
    motorcycle_id: i64,
    owner_customer_id: i64,
    status: ServiceVisitStatus,
    opened_at: i64,
    completed_at: Option<i64>,
    closed_at: Option<i64>,
    cancelled_at: Option<i64>,
    odometer_km: Option<i64>,
    customer_complaint: String,
    diagnosis: Option<String>,
    work_performed: Option<String>,
    labor_charge_fils: i64,
    cancellation_reason: Option<String>,
    notes: Option<String>,
}

pub struct ServiceVisitView {
    pub motorcycle_id: i64,
    pub owner_customer_id: i64,
    pub status: ServiceVisitStatus,
    pub opened_at: i64,
    pub completed_at: Option<i64>,
    pub closed_at: Option<i64>,
    pub cancelled_at: Option<i64>,
    pub odometer_km: Option<i64>,
    pub customer_complaint: Seq<char>,
    pub diagnosis: Option<Seq<char>>,
    pub work_performed: Option<Seq<char>>,
    pub labor_charge_fils: i64,
    pub cancellation_reason: Option<Seq<char>>,
    pub notes: Option<Seq<char>>,
}

impl View for ServiceVisit {
    type V = ServiceVisitView;

    closed spec fn view(&self) -> ServiceVisitView {
        ServiceVisitView {
            motorcycle_id: self.motorcycle_id,
            owner_customer_id: self.owner_customer_id,
            status: self.status,
            opened_at: self.opened_at,
            completed_at: self.completed_at,
            closed_at: self.closed_at,
            cancelled_at: self.cancelled_at,
            odometer_km: self.odometer_km,
            customer_complaint: self.customer_complaint@,
            diagnosis: opt_chars(self.diagnosis),
            work_performed: opt_chars(self.work_performed),
            labor_charge_fils: self.labor_charge_fils,
            cancellation_reason: opt_chars(self.cancellation_reason),
            notes: opt_chars(self.notes),
        }
    }
}

pub open spec fn field_error(fault: TextFault, field: ServiceVisitTextField) -> ServiceVisitValidationError {
    match fault {
        TextFault::TooLong => ServiceVisitValidationError::TextTooLong(field),
        TextFault::ForbiddenControl => ServiceVisitValidationError::TextContainsControlCharacter(
            field,
        ),
    }
}

/// Required text of a visit: trimmed, non-blank, within `maximum`
/// characters, with line breaks and tabs as the only control characters.
pub open spec fn required_text(
    value: Seq<char>,
    maximum: nat,
    field: ServiceVisitTextField,
    blank_error: ServiceVisitValidationError,
) -> Result<Seq<char>, ServiceVisitValidationError> {
    let t = trimmed(value);
    if t.len() == 0 {
        Err(blank_error)
    } else {
        match text_fault(t, maximum, true) {
            Some(fault) => Err(field_error(fault, field)),
            None => Ok(t),
        }
    }
}

/// Optional text of a visit: absent or blank becomes absent.
pub open spec fn optional_text(
    value: Option<Seq<char>>,
    maximum: nat,
    field: ServiceVisitTextField,
) -> Result<Option<Seq<char>>, ServiceVisitValidationError> {
    match value {
        None => Ok(None),
        Some(v) => {
            let t = trimmed(v);
            if t.len() == 0 {
                Ok(None)
            } else {
                match text_fault(t, maximum, true) {
                    Some(fault) => Err(field_error(fault, field)),
                    None => Ok(Some(t)),
                }
            }
        },
    }
}

pub open spec fn valid_odometer(odometer_km: Option<i64>) -> bool {
    match odometer_km {
        Some(value) => 0 <= value <= MAX_ODOMETER_KM,
        None => true,
    }
}

pub open spec fn is_terminal(status: ServiceVisitStatus) -> bool {
    status == ServiceVisitStatus::Closed || status == ServiceVisitStatus::Cancelled
}

/// What `ServiceVisit::open` gives, on the views of its input.
pub open spec fn open_outcome_of(
    motorcycle_id: i64,
    owner_customer_id: i64,
    opened_at: i64,
    odometer_km: Option<i64>,
    customer_complaint: Seq<char>,
    notes: Option<Seq<char>>,
) -> Result<ServiceVisitView, ServiceVisitValidationError> {
    if motorcycle_id <= 0 {
        Err(ServiceVisitValidationError::InvalidMotorcycleId)
    } else if owner_customer_id <= 0 {
        Err(ServiceVisitValidationError::InvalidOwnerCustomerId)
    } else if opened_at < 0 {
        Err(ServiceVisitValidationError::InvalidTimestamp)
    } else if !valid_odometer(odometer_km) {
        Err(ServiceVisitValidationError::InvalidOdometer)
    } else {
        match required_text(
            customer_complaint,
            4000,
            ServiceVisitTextField::CustomerComplaint,
            ServiceVisitValidationError::BlankComplaint,
        ) {
            Err(e) => Err(e),
            Ok(complaint) => match optional_text(notes, 4000, ServiceVisitTextField::Notes) {
                Err(e) => Err(e),
                Ok(notes) => Ok(
                    ServiceVisitView {
                        motorcycle_id,
                        owner_customer_id,
                        status: ServiceVisitStatus::Open,
                        opened_at,
                        completed_at: None,
                        closed_at: None,
                        cancelled_at: None,
                        odometer_km,
                        customer_complaint: complaint,
                        diagnosis: None,
                        work_performed: None,
                        labor_charge_fils: 0,
                        cancellation_reason: None,
                        notes,
                    },
                ),
            },
        }
    }
}

/// What `ServiceVisit::open` gives.
pub open spec fn open_outcome(input: NewServiceVisitInput) -> Result<
    ServiceVisitView,
    ServiceVisitValidationError,
> {
    open_outcome_of(
        input.motorcycle_id,
        input.owner_customer_id,
        input.opened_at,
        input.odometer_km,
        input.customer_complaint@,
        opt_chars(input.notes),
    )
}

/// What `update_details` makes of a visit, on the views of its inputs.
pub open spec fn details_outcome(
    v: ServiceVisitView,
    diagnosis: Option<Seq<char>>,
    work_performed: Option<Seq<char>>,
    labor_charge_fils: i64,
    notes: Option<Seq<char>>,
    odometer_km: Option<i64>,
) -> Result<ServiceVisitView, ServiceVisitValidationError> {
    if is_terminal(v.status) {
        Err(ServiceVisitValidationError::TerminalVisitCannotBeEdited)
    } else if labor_charge_fils < 0 {
        Err(ServiceVisitValidationError::NegativeLaborCharge)
    } else if !valid_odometer(odometer_km) {
        Err(ServiceVisitValidationError::InvalidOdometer)
    } else {
        match optional_text(diagnosis, 4000, ServiceVisitTextField::Diagnosis) {
            Err(e) => Err(e),
            Ok(d) => match optional_text(work_performed, 4000, ServiceVisitTextField::WorkPerformed) {
                Err(e) => Err(e),
                Ok(w) => match optional_text(notes, 4000, ServiceVisitTextField::Notes) {
                    Err(e) => Err(e),
                    Ok(n) => if v.status == ServiceVisitStatus::ReadyForPickup && w.is_none() {
                        Err(ServiceVisitValidationError::MissingWorkPerformed)
                    } else {
                        Ok(
                            ServiceVisitView {
                                diagnosis: d,
                                work_performed: w,
                                labor_charge_fils,
                                notes: n,
                                odometer_km,
                                ..v
                            },
                        )
                    },
                },
            },
        }
    }
}

pub open spec fn ready_outcome(v: ServiceVisitView, completed_at: i64) -> Result<
    ServiceVisitView,
    ServiceVisitValidationError,
> {
    if v.status != ServiceVisitStatus::Open {
        Err(
            ServiceVisitValidationError::InvalidTransition {
                from: v.status,
                to: ServiceVisitStatus::ReadyForPickup,
            },
        )
    } else if v.work_performed.is_none() {
        Err(ServiceVisitValidationError::MissingWorkPerformed)
    } else if completed_at < v.opened_at {
        Err(ServiceVisitValidationError::InvalidTimestamp)
    } else {
        Ok(
            ServiceVisitView {
                status: ServiceVisitStatus::ReadyForPickup,
                completed_at: Some(completed_at),
                ..v
            },
        )
    }
}

pub open spec fn reopen_outcome(v: ServiceVisitView) -> Result<
    ServiceVisitView,
    ServiceVisitValidationError,
> {
    if v.status != ServiceVisitStatus::ReadyForPickup {
        Err(
            ServiceVisitValidationError::InvalidTransition {
                from: v.status,
                to: ServiceVisitStatus::Open,
            },
        )
    } else {
        Ok(
            ServiceVisitView {
                status: ServiceVisitStatus::Open,
                completed_at: None,
                closed_at: None,
                ..v
            },
        )
    }
}

pub open spec fn close_outcome(v: ServiceVisitView, closed_at: i64) -> Result<
    ServiceVisitView,
    ServiceVisitValidationError,
> {
    if v.status != ServiceVisitStatus::ReadyForPickup {
        Err(
            ServiceVisitValidationError::InvalidTransition {
                from: v.status,
                to: ServiceVisitStatus::Closed,
            },
        )
    } else if v.completed_at.is_none() {
        Err(ServiceVisitValidationError::InvalidTimestamp)
    } else if closed_at < v.completed_at.unwrap() {
        Err(ServiceVisitValidationError::InvalidTimestamp)
    } else {
        Ok(ServiceVisitView { status: ServiceVisitStatus::Closed, closed_at: Some(closed_at), ..v })
    }
}

pub open spec fn cancel_outcome(v: ServiceVisitView, cancelled_at: i64, reason: Seq<char>) -> Result<
    ServiceVisitView,
    ServiceVisitValidationError,
> {
    if v.status != ServiceVisitStatus::Open {
        Err(
            ServiceVisitValidationError::InvalidTransition {
                from: v.status,
                to: ServiceVisitStatus::Cancelled,
            },
        )
    } else {
        match required_text(
            reason,
            1000,
            ServiceVisitTextField::CancellationReason,
            ServiceVisitValidationError::BlankCancellationReason,
        ) {
            Err(e) => Err(e),
            Ok(r) => if cancelled_at < v.opened_at {
                Err(ServiceVisitValidationError::InvalidTimestamp)
            } else {
                Ok(
                    ServiceVisitView {
                        status: ServiceVisitStatus::Cancelled,
                        cancelled_at: Some(cancelled_at),
                        cancellation_reason: Some(r),
                        ..v
                    },
                )
            },
        }
    }
}

/// A mutation that either succeeded with the expected visit or failed with the
/// expected error and left the visit as it was.
pub open spec fn applied(
    before: ServiceVisitView,
    after: ServiceVisitView,
    r: Result<(), ServiceVisitValidationError>,
    expected: Result<ServiceVisitView, ServiceVisitValidationError>,
) -> bool {
    match r {
        Ok(_) => expected == Ok::<ServiceVisitView, ServiceVisitValidationError>(after),
        Err(e) => expected == Err::<ServiceVisitView, ServiceVisitValidationError>(e) && after
            == before,
    }
}

/// The lifecycle consistency of a visit: the timestamps that each status
/// implies are present, ordered after the opening, and no others are.
pub open spec fn lifecycle_consistent(v: ServiceVisitView) -> bool {
    &&& v.cancelled_at.is_some() <==> v.status == ServiceVisitStatus::Cancelled
    &&& v.cancellation_reason.is_some() <==> v.status == ServiceVisitStatus::Cancelled
    &&& v.closed_at.is_some() <==> v.status == ServiceVisitStatus::Closed
    &&& v.completed_at.is_some() <==> (v.status == ServiceVisitStatus::ReadyForPickup || v.status
        == ServiceVisitStatus::Closed)
    &&& (v.status == ServiceVisitStatus::ReadyForPickup || v.status == ServiceVisitStatus::Closed)
        ==> v.work_performed.is_some()
    &&& v.completed_at.is_some() ==> v.opened_at <= v.completed_at.unwrap()
    &&& v.closed_at.is_some() ==> v.completed_at.is_some() && v.completed_at.unwrap()
        <= v.closed_at.unwrap()
    &&& v.cancelled_at.is_some() ==> v.opened_at <= v.cancelled_at.unwrap()
}

/// Text as a visit keeps it: trimmed, not blank, and acceptable for a field
/// of at most `maximum` characters.
pub open spec fn canonical_text(s: Seq<char>, maximum: nat) -> bool {
    &&& s.len() > 0
    &&& trimmed(s) == s
    &&& text_fault(s, maximum, true) is None
}

pub open spec fn canonical_optional(o: Option<Seq<char>>, maximum: nat) -> bool {
    match o {
        Some(s) => canonical_text(s, maximum),
        None => true,
    }
}

/// Every text of the visit is kept as its rules produce it.
pub open spec fn canonical_texts(v: ServiceVisitView) -> bool {
    &&& canonical_text(v.customer_complaint, 4000)
    &&& canonical_optional(v.diagnosis, 4000)
    &&& canonical_optional(v.work_performed, 4000)
    &&& canonical_optional(v.notes, 4000)
    &&& canonical_optional(v.cancellation_reason, 1000)
}

/// Everything a visit made through this type satisfies.
pub open spec fn well_formed(v: ServiceVisitView) -> bool {
    &&& lifecycle_consistent(v)
    &&& canonical_texts(v)
    &&& v.motorcycle_id > 0
    &&& v.owner_customer_id > 0
    &&& v.opened_at >= 0
    &&& valid_odometer(v.odometer_km)
    &&& v.labor_charge_fils >= 0
    &&& v.customer_complaint.len() > 0
}

impl ServiceVisit {
    /// Every visit is well formed: `open` establishes it and every change
    /// keeps it.
    #[verifier::type_invariant]
    pub open spec fn is_well_formed(self) -> bool {
        well_formed(self@)
    }

    /// The visit with its lifecycle fields replaced and everything else kept.
    fn with_lifecycle(
        &self,
        status: ServiceVisitStatus,
        completed_at: Option<i64>,
        closed_at: Option<i64>,
        cancelled_at: Option<i64>,
        cancellation_reason: Option<String>,
    ) -> (r: ServiceVisit)
        requires
            well_formed(
                ServiceVisitView {
                    status,
                    completed_at,
                    closed_at,
                    cancelled_at,
                    cancellation_reason: opt_chars(cancellation_reason),
                    ..self@
                },
            ),
        ensures
            r@ == (ServiceVisitView {
                status,
                completed_at,
                closed_at,
                cancelled_at,
                cancellation_reason: opt_chars(cancellation_reason),
                ..self@
            }),
    {
        ServiceVisit {
            motorcycle_id: self.motorcycle_id,
            owner_customer_id: self.owner_customer_id,
            status,
            opened_at: self.opened_at,
            completed_at,
            closed_at,
            cancelled_at,
            odometer_km: self.odometer_km,
            customer_complaint: self.customer_complaint.clone(),
            diagnosis: self.diagnosis.clone(),
            work_performed: self.work_performed.clone(),
            labor_charge_fils: self.labor_charge_fils,
            cancellation_reason,
            notes: self.notes.clone(),
        }
    }

    pub fn open(input: NewServiceVisitInput) -> (r: Result<Self, ServiceVisitValidationError>)
        ensures
            match r {
                Ok(visit) => open_outcome(input) == Ok::<
                    ServiceVisitView,
                    ServiceVisitValidationError,
                >(visit@) && well_formed(visit@),
                Err(e) => open_outcome(input) == Err::<
                    ServiceVisitView,
                    ServiceVisitValidationError,
                >(e),
            },
    {
        proof {
            lemma_required_text_canonical(
                input.customer_complaint@,
                4000,
                ServiceVisitTextField::CustomerComplaint,
                ServiceVisitValidationError::BlankComplaint,
            );
            lemma_optional_text_canonical(opt_chars(input.notes), 4000, ServiceVisitTextField::Notes);
        }
        if input.motorcycle_id <= 0 {
            return Err(ServiceVisitValidationError::InvalidMotorcycleId);
        }
        if input.owner_customer_id <= 0 {
            return Err(ServiceVisitValidationError::InvalidOwnerCustomerId);
        }
        if input.opened_at < 0 {
            return Err(ServiceVisitValidationError::InvalidTimestamp);
        }
        validate_odometer(input.odometer_km)?;
        let customer_complaint = normalize_required_text(
            input.customer_complaint,
            4_000,
            ServiceVisitTextField::CustomerComplaint,
            ServiceVisitValidationError::BlankComplaint,
        )?;
        let notes = normalize_optional_text(input.notes, 4_000, ServiceVisitTextField::Notes)?;
        Ok(
            ServiceVisit {
                motorcycle_id: input.motorcycle_id,
                owner_customer_id: input.owner_customer_id,
                status: ServiceVisitStatus::Open,
                opened_at: input.opened_at,
                completed_at: None,
                closed_at: None,
                cancelled_at: None,
                odometer_km: input.odometer_km,
                customer_complaint,
                diagnosis: None,
                work_performed: None,
                labor_charge_fils: 0,
                cancellation_reason: None,
                notes,
            },
        )
    }

    pub fn update_details(&mut self, input: ServiceVisitDetailsInput) -> (r: Result<
        (),
        ServiceVisitValidationError,
    >)
        ensures
            applied(
                old(self)@,
                final(self)@,
                r,
                details_outcome(
                    old(self)@,
                    opt_chars(input.diagnosis),
                    opt_chars(input.work_performed),
                    input.labor_charge_fils,
                    opt_chars(input.notes),
                    input.odometer_km,
                ),
            ),
            well_formed(old(self)@),
            well_formed(final(self)@),
    {
        proof {
            use_type_invariant(&*self);
        }
        proof {
            lemma_optional_text_canonical(
                opt_chars(input.diagnosis),
                4000,
                ServiceVisitTextField::Diagnosis,
            );
            lemma_optional_text_canonical(
                opt_chars(input.work_performed),
                4000,
                ServiceVisitTextField::WorkPerformed,
            );
            lemma_optional_text_canonical(opt_chars(input.notes), 4000, ServiceVisitTextField::Notes);
        }
        if self.status == ServiceVisitStatus::Closed || self.status == ServiceVisitStatus::Cancelled {
            return Err(ServiceVisitValidationError::TerminalVisitCannotBeEdited);
        }
        if input.labor_charge_fils < 0 {
            return Err(ServiceVisitValidationError::NegativeLaborCharge);
        }
        validate_odometer(input.odometer_km)?;
        let diagnosis = normalize_optional_text(
            input.diagnosis,
            4_000,
            ServiceVisitTextField::Diagnosis,
        )?;
        let work_performed = normalize_optional_text(
            input.work_performed,
            4_000,
            ServiceVisitTextField::WorkPerformed,
        )?;
        let notes = normalize_optional_text(input.notes, 4_000, ServiceVisitTextField::Notes)?;
        if self.status == ServiceVisitStatus::ReadyForPickup && work_performed.is_none() {
            return Err(ServiceVisitValidationError::MissingWorkPerformed);
        }
        self.diagnosis = diagnosis;
        self.work_performed = work_performed;
        self.labor_charge_fils = input.labor_charge_fils;
        self.notes = notes;
        self.odometer_km = input.odometer_km;
        proof {
            use_type_invariant(&*self);
        }
        Ok(())
    }

    pub fn mark_ready_for_pickup(&mut self, completed_at: i64) -> (r: Result<
        (),
        ServiceVisitValidationError,
    >)
        ensures
            applied(old(self)@, final(self)@, r, ready_outcome(old(self)@, completed_at)),
            well_formed(old(self)@),
            well_formed(final(self)@),
    {
        proof {
            use_type_invariant(&*self);
        }
        self.require_transition(ServiceVisitStatus::Open, ServiceVisitStatus::ReadyForPickup)?;
        if self.work_performed.is_none() {
            return Err(ServiceVisitValidationError::MissingWorkPerformed);
        }
        if completed_at < self.opened_at {
            return Err(ServiceVisitValidationError::InvalidTimestamp);
        }
        let next = self.with_lifecycle(
            ServiceVisitStatus::ReadyForPickup,
            Some(completed_at),
            self.closed_at,
            self.cancelled_at,
            None,
        );
        *self = next;
        Ok(())
    }

    pub fn reopen(&mut self) -> (r: Result<(), ServiceVisitValidationError>)
        ensures
            applied(old(self)@, final(self)@, r, reopen_outcome(old(self)@)),
            well_formed(old(self)@),
            well_formed(final(self)@),
    {
        proof {
            use_type_invariant(&*self);
        }
        self.require_transition(ServiceVisitStatus::ReadyForPickup, ServiceVisitStatus::Open)?;
        let next = self.with_lifecycle(
            ServiceVisitStatus::Open,
            None,
            None,
            self.cancelled_at,
            None,
        );
        *self = next;
        Ok(())
    }

    pub fn close(&mut self, closed_at: i64) -> (r: Result<(), ServiceVisitValidationError>)
        ensures
            applied(old(self)@, final(self)@, r, close_outcome(old(self)@, closed_at)),
            well_formed(old(self)@),
            well_formed(final(self)@),
    {
        proof {
            use_type_invariant(&*self);
        }
        self.require_transition(ServiceVisitStatus::ReadyForPickup, ServiceVisitStatus::Closed)?;
        let completed_at = match self.completed_at {
            Some(value) => value,
            None => {
                return Err(ServiceVisitValidationError::InvalidTimestamp);
            },
        };
        if closed_at < completed_at {
            return Err(ServiceVisitValidationError::InvalidTimestamp);
        }
        let next = self.with_lifecycle(
            ServiceVisitStatus::Closed,
            self.completed_at,
            Some(closed_at),
            self.cancelled_at,
            None,
        );
        *self = next;
        Ok(())
    }

    pub fn cancel(&mut self, cancelled_at: i64, reason: String) -> (r: Result<
        (),
        ServiceVisitValidationError,
    >)
        ensures
            applied(old(self)@, final(self)@, r, cancel_outcome(old(self)@, cancelled_at, reason@)),
            well_formed(old(self)@),
            well_formed(final(self)@),
    {
        proof {
            use_type_invariant(&*self);
        }
        proof {
            lemma_required_text_canonical(
                reason@,
                1000,
                ServiceVisitTextField::CancellationReason,
                ServiceVisitValidationError::BlankCancellationReason,
            );
        }
        self.require_transition(ServiceVisitStatus::Open, ServiceVisitStatus::Cancelled)?;
        let cancellation_reason = normalize_required_text(
            reason,
            1_000,
            ServiceVisitTextField::CancellationReason,
            ServiceVisitValidationError::BlankCancellationReason,
        )?;
        if cancelled_at < self.opened_at {
            return Err(ServiceVisitValidationError::InvalidTimestamp);
        }
        let next = self.with_lifecycle(
            ServiceVisitStatus::Cancelled,
            self.completed_at,
            self.closed_at,
            Some(cancelled_at),
            Some(cancellation_reason),
        );
        *self = next;
        Ok(())
    }

    fn require_transition(
        &self,
        required_status: ServiceVisitStatus,
        target_status: ServiceVisitStatus,
    ) -> (r: Result<(), ServiceVisitValidationError>)
        ensures
            self@.status == required_status ==> r is Ok,
            self@.status != required_status ==> r == Err::<(), ServiceVisitValidationError>(
                ServiceVisitValidationError::InvalidTransition {
                    from: self@.status,
                    to: target_status,
                },
            ),
    {
        if self.status != required_status {
            return Err(
                ServiceVisitValidationError::InvalidTransition {
                    from: self.status,
                    to: target_status,
                },
            );
        }
        Ok(())
    }

    pub fn motorcycle_id(&self) -> (r: i64)
        ensures
            r == self@.motorcycle_id,
            well_formed(self@),
    {
        proof {
            use_type_invariant(self);
        }
        self.motorcycle_id
    }

    pub fn owner_customer_id(&self) -> (r: i64)
        ensures
            r == self@.owner_customer_id,
            well_formed(self@),
    {
        proof {
            use_type_invariant(self);
        }
        self.owner_customer_id
    }

    pub fn status(&self) -> (r: ServiceVisitStatus)
        ensures
            r == self@.status,
            well_formed(self@),
    {
        proof {
            use_type_invariant(self);
        }
        self.status
    }

    pub fn opened_at(&self) -> (r: i64)
        ensures
            r == self@.opened_at,
            well_formed(self@),
    {
        proof {
            use_type_invariant(self);
        }
        self.opened_at
    }

    pub fn completed_at(&self) -> (r: Option<i64>)
        ensures
            r == self@.completed_at,
            well_formed(self@),
    {
        proof {
            use_type_invariant(self);
        }
        self.completed_at
    }

    pub fn closed_at(&self) -> (r: Option<i64>)
        ensures
            r == self@.closed_at,
            well_formed(self@),
    {
        proof {
            use_type_invariant(self);
        }
        self.closed_at
    }

    pub fn cancelled_at(&self) -> (r: Option<i64>)
        ensures
            r == self@.cancelled_at,
            well_formed(self@),
    {
        proof {
            use_type_invariant(self);
        }
        self.cancelled_at
    }

    pub fn odometer_km(&self) -> (r: Option<i64>)
        ensures
            r == self@.odometer_km,
            well_formed(self@),
    {
        proof {
            use_type_invariant(self);
        }
        self.odometer_km
    }

    pub fn customer_complaint(&self) -> (r: &str)
        ensures
            r@ == self@.customer_complaint,
            well_formed(self@),
    {
        proof {
            use_type_invariant(self);
        }
        self.customer_complaint.as_str()
    }

    pub fn diagnosis(&self) -> (r: Option<&str>)
        ensures
            match r {
                Some(s) => self@.diagnosis == Some(s@),
                None => self@.diagnosis.is_none(),
            },
            well_formed(self@),
    {
        proof {
            use_type_invariant(self);
        }
        opt_as_str(&self.diagnosis)
    }

    pub fn work_performed(&self) -> (r: Option<&str>)
        ensures
            match r {
                Some(s) => self@.work_performed == Some(s@),
                None => self@.work_performed.is_none(),
            },
            well_formed(self@),
    {
        proof {
            use_type_invariant(self);
        }
        opt_as_str(&self.work_performed)
    }

    pub fn labor_charge_fils(&self) -> (r: i64)
        ensures
            r == self@.labor_charge_fils,
            well_formed(self@),
    {
        proof {
            use_type_invariant(self);
        }
        self.labor_charge_fils
    }

    pub fn cancellation_reason(&self) -> (r: Option<&str>)
        ensures
            match r {
                Some(s) => self@.cancellation_reason == Some(s@),
                None => self@.cancellation_reason.is_none(),
            },
            well_formed(self@),
    {
        proof {
            use_type_invariant(self);
        }
        opt_as_str(&self.cancellation_reason)
    }

    pub fn notes(&self) -> (r: Option<&str>)
        ensures
            match r {
                Some(s) => self@.notes == Some(s@),
                None => self@.notes.is_none(),
            },
            well_formed(self@),
    {
        proof {
            use_type_invariant(self);
        }
        opt_as_str(&self.notes)
    }
}

fn validate_odometer(odometer_km: Option<i64>) -> (r: Result<(), ServiceVisitValidationError>)
    ensures
        valid_odometer(odometer_km) ==> r is Ok,
        !valid_odometer(odometer_km) ==> r == Err::<(), ServiceVisitValidationError>(
            ServiceVisitValidationError::InvalidOdometer,
        ),
{
    match odometer_km {
        Some(value) => {
            if !(0 <= value && value <= MAX_ODOMETER_KM) {
                return Err(ServiceVisitValidationError::InvalidOdometer);
            }
        },
        None => {},
    }
    Ok(())
}

fn normalize_required_text(
    value: String,
    maximum_characters: usize,
    field: ServiceVisitTextField,
    blank_error: ServiceVisitValidationError,
) -> (r: Result<String, ServiceVisitValidationError>)
    ensures
        match r {
            Ok(s) => required_text(value@, maximum_characters as nat, field, blank_error) == Ok::<
                Seq<char>,
                ServiceVisitValidationError,
            >(s@),
            Err(e) => required_text(value@, maximum_characters as nat, field, blank_error) == Err::<
                Seq<char>,
                ServiceVisitValidationError,
            >(e),
        },
{
    let (text, chars) = trim_text(value.as_str());
    if chars.len() == 0 {
        return Err(blank_error);
    }
    validate_text(&chars, maximum_characters, field)?;
    Ok(text)
}

fn normalize_optional_text(
    value: Option<String>,
    maximum_characters: usize,
    field: ServiceVisitTextField,
) -> (r: Result<Option<String>, ServiceVisitValidationError>)
    ensures
        match r {
            Ok(s) => optional_text(opt_chars(value), maximum_characters as nat, field) == Ok::<
                Option<Seq<char>>,
                ServiceVisitValidationError,
            >(opt_chars(s)),
            Err(e) => optional_text(opt_chars(value), maximum_characters as nat, field) == Err::<
                Option<Seq<char>>,
                ServiceVisitValidationError,
            >(e),
        },
{
    let value = match value {
        None => {
            return Ok(None);
        },
        Some(value) => value,
    };
    let (text, chars) = trim_text(value.as_str());
    if chars.len() == 0 {
        return Ok(None);
    }
    validate_text(&chars, maximum_characters, field)?;
    Ok(Some(text))
}

fn validate_text(value: &Vec<char>, maximum_characters: usize, field: ServiceVisitTextField) -> (r:
    Result<(), ServiceVisitValidationError>)
    ensures
        match text_fault(value@, maximum_characters as nat, true) {
            Some(fault) => r == Err::<(), ServiceVisitValidationError>(field_error(fault, field)),
            None => r is Ok,
        },
{
    match check_text(value, maximum_characters, true) {
        Some(TextFault::TooLong) => Err(ServiceVisitValidationError::TextTooLong(field)),
        Some(TextFault::ForbiddenControl) => Err(
            ServiceVisitValidationError::TextContainsControlCharacter(field),
        ),
        None => Ok(()),
    }
}

} // verus!

verus! {

/// Text accepted by the rules is kept in canonical form.
pub proof fn lemma_required_text_canonical(
    value: Seq<char>,
    maximum: nat,
    field: ServiceVisitTextField,
    blank_error: ServiceVisitValidationError,
)
    ensures
        required_text(value, maximum, field, blank_error) is Ok ==> canonical_text(
            required_text(value, maximum, field, blank_error)->Ok_0,
            maximum,
        ),
{
    trim_is_idempotent(value);
}

/// Optional text accepted by the rules is absent or in canonical form.
pub proof fn lemma_optional_text_canonical(
    value: Option<Seq<char>>,
    maximum: nat,
    field: ServiceVisitTextField,
)
    ensures
        optional_text(value, maximum, field) is Ok ==> canonical_optional(
            optional_text(value, maximum, field)->Ok_0,
            maximum,
        ),
{
    if let Some(v) = value {
        trim_is_idempotent(v);
    }
}

/// Canonical text is accepted unchanged.
pub proof fn lemma_canonical_text_accepted(
    value: Seq<char>,
    maximum: nat,
    field: ServiceVisitTextField,
    blank_error: ServiceVisitValidationError,
)
    requires
        canonical_text(value, maximum),
    ensures
        required_text(value, maximum, field, blank_error) == Ok::<
            Seq<char>,
            ServiceVisitValidationError,
        >(value),
        optional_text(Some(value), maximum, field) == Ok::<
            Option<Seq<char>>,
            ServiceVisitValidationError,
        >(Some(value)),
{
}

/// Marking an open visit ready for pickup and then reopening it gives back
/// the visit exactly as it was.
pub proof fn reopen_undoes_ready_for_pickup(v: ServiceVisitView, completed_at: i64)
    requires
        well_formed(v),
        ready_outcome(v, completed_at) is Ok,
    ensures
        reopen_outcome(ready_outcome(v, completed_at)->Ok_0) == Ok::<
            ServiceVisitView,
            ServiceVisitValidationError,
        >(v),
{
}

/// A closed or cancelled visit accepts no further change: every lifecycle
/// step and every edit of its work is refused.
pub proof fn terminal_visits_are_final(
    v: ServiceVisitView,
    completed_at: i64,
    closed_at: i64,
    cancelled_at: i64,
    reason: Seq<char>,
    diagnosis: Option<Seq<char>>,
    work_performed: Option<Seq<char>>,
    labor_charge_fils: i64,
    notes: Option<Seq<char>>,
    odometer_km: Option<i64>,
)
    requires
        is_terminal(v.status),
    ensures
        ready_outcome(v, completed_at) is Err,
        reopen_outcome(v) is Err,
        close_outcome(v, closed_at) is Err,
        cancel_outcome(v, cancelled_at, reason) is Err,
        details_outcome(v, diagnosis, work_performed, labor_charge_fils, notes, odometer_km)
            == Err::<ServiceVisitView, ServiceVisitValidationError>(
            ServiceVisitValidationError::TerminalVisitCannotBeEdited,
        ),
{
}

/// The only status changes are open to ready for pickup, ready for pickup
/// back to open, ready for pickup to closed, and open to cancelled; editing
/// the work never changes the status or the lifecycle timestamps.
pub proof fn lifecycle_transitions(
    v: ServiceVisitView,
    completed_at: i64,
    closed_at: i64,
    cancelled_at: i64,
    reason: Seq<char>,
    diagnosis: Option<Seq<char>>,
    work_performed: Option<Seq<char>>,
    labor_charge_fils: i64,
    notes: Option<Seq<char>>,
    odometer_km: Option<i64>,
)
    ensures
        ready_outcome(v, completed_at) is Ok ==> v.status == ServiceVisitStatus::Open
            && ready_outcome(v, completed_at)->Ok_0.status == ServiceVisitStatus::ReadyForPickup,
        reopen_outcome(v) is Ok ==> v.status == ServiceVisitStatus::ReadyForPickup
            && reopen_outcome(v)->Ok_0.status == ServiceVisitStatus::Open,
        close_outcome(v, closed_at) is Ok ==> v.status == ServiceVisitStatus::ReadyForPickup
            && close_outcome(v, closed_at)->Ok_0.status == ServiceVisitStatus::Closed,
        cancel_outcome(v, cancelled_at, reason) is Ok ==> v.status == ServiceVisitStatus::Open
            && cancel_outcome(v, cancelled_at, reason)->Ok_0.status
            == ServiceVisitStatus::Cancelled,
        details_outcome(v, diagnosis, work_performed, labor_charge_fils, notes, odometer_km) is Ok
            ==> {
            let w = details_outcome(
                v,
                diagnosis,
                work_performed,
                labor_charge_fils,
                notes,
                odometer_km,
            )->Ok_0;
            &&& w.status == v.status
            &&& w.completed_at == v.completed_at
            &&& w.closed_at == v.closed_at
            &&& w.cancelled_at == v.cancelled_at
        },
{
}

/// Every step of the lifecycle and every edit keeps a well-formed visit
/// well-formed.
pub proof fn lifecycle_keeps_visits_well_formed(
    v: ServiceVisitView,
    completed_at: i64,
    closed_at: i64,
    cancelled_at: i64,
    reason: Seq<char>,
    diagnosis: Option<Seq<char>>,
    work_performed: Option<Seq<char>>,
    labor_charge_fils: i64,
    notes: Option<Seq<char>>,
    odometer_km: Option<i64>,
)
    requires
        well_formed(v),
    ensures
        ready_outcome(v, completed_at) is Ok ==> well_formed(ready_outcome(v, completed_at)->Ok_0),
        reopen_outcome(v) is Ok ==> well_formed(reopen_outcome(v)->Ok_0),
        close_outcome(v, closed_at) is Ok ==> well_formed(close_outcome(v, closed_at)->Ok_0),
        cancel_outcome(v, cancelled_at, reason) is Ok ==> well_formed(
            cancel_outcome(v, cancelled_at, reason)->Ok_0,
        ),
        details_outcome(v, diagnosis, work_performed, labor_charge_fils, notes, odometer_km) is Ok
            ==> well_formed(
            details_outcome(
                v,
                diagnosis,
                work_performed,
                labor_charge_fils,
                notes,
                odometer_km,
            )->Ok_0,
        ),
{
    lemma_required_text_canonical(
        reason,
        1000,
        ServiceVisitTextField::CancellationReason,
        ServiceVisitValidationError::BlankCancellationReason,
    );
    lemma_optional_text_canonical(diagnosis, 4000, ServiceVisitTextField::Diagnosis);
    lemma_optional_text_canonical(work_performed, 4000, ServiceVisitTextField::WorkPerformed);
    lemma_optional_text_canonical(notes, 4000, ServiceVisitTextField::Notes);
}



/// A successful details update replaces every work field with the submitted
/// value, whatever the visit held before: diagnosis, work performed and notes
/// become the submitted text, trimmed, or nothing when it is missing or
/// blank; the labour charge and odometer become the submitted ones. Two visits
/// with the same status given the same details end with the same work fields.
pub proof fn details_update_replaces_the_work_fields(
    v: ServiceVisitView,
    u: ServiceVisitView,
    diagnosis: Option<Seq<char>>,
    work_performed: Option<Seq<char>>,
    labor_charge_fils: i64,
    notes: Option<Seq<char>>,
    odometer_km: Option<i64>,
)
    ensures
        details_outcome(v, diagnosis, work_performed, labor_charge_fils, notes, odometer_km) is Ok
            ==> {
            let w = details_outcome(
                v,
                diagnosis,
                work_performed,
                labor_charge_fils,
                notes,
                odometer_km,
            )->Ok_0;
            &&& w.diagnosis == kept_text(diagnosis)
            &&& w.work_performed == kept_text(work_performed)
            &&& w.notes == kept_text(notes)
            &&& w.labor_charge_fils == labor_charge_fils
            &&& w.odometer_km == odometer_km
        },
        u.status == v.status && details_outcome(
            v,
            diagnosis,
            work_performed,
            labor_charge_fils,
            notes,
            odometer_km,
        ) is Ok ==> {
            let w = details_outcome(
                v,
                diagnosis,
                work_performed,
                labor_charge_fils,
                notes,
                odometer_km,
            )->Ok_0;
            &&& details_outcome(u, diagnosis, work_performed, labor_charge_fils, notes, odometer_km) is Ok
            &&& {
                let x = details_outcome(
                    u,
                    diagnosis,
                    work_performed,
                    labor_charge_fils,
                    notes,
                    odometer_km,
                )->Ok_0;
                &&& x.diagnosis == w.diagnosis
                &&& x.work_performed == w.work_performed
                &&& x.notes == w.notes
                &&& x.labor_charge_fils == w.labor_charge_fils
                &&& x.odometer_km == w.odometer_km
            }
        },
{
}

/// Optional text that a visit field of at most `maximum` characters takes.
pub open spec fn optional_fits(value: Option<Seq<char>>, maximum: nat) -> bool {
    value matches Some(v) ==> fits_field(v, maximum, true)
}

/// A visit opens for any valid motorcycle, owner, time and odometer (none,
/// or 0 to 9,999,999 km) with a complaint of 1 to 4000 trimmed characters and
/// notes of at most 4000: it is open, with the trimmed complaint, the notes
/// as kept, the given odometer, no work recorded yet and no later times.
pub proof fn valid_visits_open(
    motorcycle_id: i64,
    owner_customer_id: i64,
    opened_at: i64,
    odometer_km: Option<i64>,
    customer_complaint: Seq<char>,
    notes: Option<Seq<char>>,
)
    requires
        motorcycle_id > 0,
        owner_customer_id > 0,
        opened_at >= 0,
        odometer_km matches Some(km) ==> 0 <= km <= 9_999_999,
        1 <= trimmed(customer_complaint).len(),
        fits_field(customer_complaint, 4000, true),
        optional_fits(notes, 4000),
    ensures
        open_outcome_of(
            motorcycle_id,
            owner_customer_id,
            opened_at,
            odometer_km,
            customer_complaint,
            notes,
        ) == Ok::<ServiceVisitView, ServiceVisitValidationError>(
            ServiceVisitView {
                motorcycle_id,
                owner_customer_id,
                status: ServiceVisitStatus::Open,
                opened_at,
                completed_at: None,
                closed_at: None,
                cancelled_at: None,
                odometer_km,
                customer_complaint: trimmed(customer_complaint),
                diagnosis: None,
                work_performed: None,
                labor_charge_fils: 0,
                cancellation_reason: None,
                notes: kept_text(notes),
            },
        ),
{
}

/// Details are accepted on any visit that is still open or ready for pickup
/// when the labour charge is not negative, the odometer is valid, every text
/// has at most 4000 trimmed characters, and a visit ready for pickup keeps
/// some work performed.
pub proof fn valid_details_are_accepted(
    v: ServiceVisitView,
    diagnosis: Option<Seq<char>>,
    work_performed: Option<Seq<char>>,
    labor_charge_fils: i64,
    notes: Option<Seq<char>>,
    odometer_km: Option<i64>,
)
    requires
        v.status == ServiceVisitStatus::Open || v.status == ServiceVisitStatus::ReadyForPickup,
        labor_charge_fils >= 0,
        odometer_km matches Some(km) ==> 0 <= km <= 9_999_999,
        optional_fits(diagnosis, 4000),
        optional_fits(work_performed, 4000),
        optional_fits(notes, 4000),
        v.status == ServiceVisitStatus::ReadyForPickup ==> kept_text(work_performed) is Some,
    ensures
        details_outcome(v, diagnosis, work_performed, labor_charge_fils, notes, odometer_km) is Ok,
{
}

/// An open visit is cancelled, at or after its opening, for any reason of 1
/// to 1000 trimmed characters: it records the time and the trimmed reason and
/// keeps everything else.
pub proof fn open_visits_cancel_with_a_reason(v: ServiceVisitView, cancelled_at: i64, reason: Seq<char>)
    requires
        v.status == ServiceVisitStatus::Open,
        cancelled_at >= v.opened_at,
        1 <= trimmed(reason).len(),
        fits_field(reason, 1000, true),
    ensures
        cancel_outcome(v, cancelled_at, reason) == Ok::<ServiceVisitView, ServiceVisitValidationError>(
            ServiceVisitView {
                status: ServiceVisitStatus::Cancelled,
                cancelled_at: Some(cancelled_at),
                cancellation_reason: Some(trimmed(reason)),
                ..v
            },
        ),
{
}
} // verus!

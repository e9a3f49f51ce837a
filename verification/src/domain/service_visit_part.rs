//! A part used on a service visit, priced per unit of its inventory unit,
//! and the voiding of such a line.

use vstd::prelude::*;

use crate::text::{
    check_text, fits_field, kept_text, opt_as_str, opt_chars, text_fault, trim_is_idempotent, trim_text, trimmed, TextFault,
};

verus! {

pub const MAX_QUANTITY: i64 = 1_000_000_000;

pub const MAX_UNIT_PRICE_FILS: i64 = 1_000_000_000;

#[derive(Debug, Clone, Copy, PartialEq, Eq, Structural)]
pub enum ServiceVisitPartStatus {
    Active,
    Voided,
}

#[derive(Debug, Clone, Copy, PartialEq, Eq)]
pub enum ServiceVisitPartTextField {
    ItemName,
    UnitName,
    VoidReason,
}

#[derive(Debug, Clone, Copy, PartialEq, Eq)]
pub enum ServiceVisitPartValidationError {
    InvalidServiceVisitId,
    InvalidInventoryItemId,
    BlankItemName,
    BlankUnitName,
    InvalidQuantity,
    InvalidQuantityScale,
    InvalidUnitPrice,
    InvalidTimestamp,
    CalculationOverflow,
    PartAlreadyVoided,
    TextTooLong(ServiceVisitPartTextField),
    TextContainsControlCharacter(ServiceVisitPartTextField),
}

#[derive(Debug, PartialEq, Eq)]
pub struct NewServiceVisitPartInput {
    pub service_visit_id: i64,
    pub inventory_item_id: i64,
    pub item_name: String,
    pub unit_name: String,
    pub quantity: i64,
    pub quantity_scale: i64,
    pub unit_price_fils: i64,
    pub created_at: i64,
}

#[derive(Debug, PartialEq, Eq)]
pub struct ServiceVisitPart {
    service_visit_id: i64,
    inventory_item_id: i64,
    item_name: String,
    unit_name: String,
    quantity: i64,
    quantity_scale: i64,
    unit_price_fils: i64,
    line_total_fils: i64,
    status: ServiceVisitPartStatus,
    voided_at: Option<i64>,
    void_reason: Option<String>,
    created_at: i64,
}

pub struct ServiceVisitPartView {
    pub service_visit_id: i64,
    pub inventory_item_id: i64,
    pub item_name: Seq<char>,
    pub unit_name: Seq<char>,
    pub quantity: i64,
    pub quantity_scale: i64,
    pub unit_price_fils: i64,
    pub line_total_fils: i64,
    pub status: ServiceVisitPartStatus,
    pub voided_at: Option<i64>,
    pub void_reason: Option<Seq<char>>,
    pub created_at: i64,
}

impl View for ServiceVisitPart {
    type V = ServiceVisitPartView;

    closed spec fn view(&self) -> ServiceVisitPartView {
        ServiceVisitPartView {
            service_visit_id: self.service_visit_id,
            inventory_item_id: self.inventory_item_id,
            item_name: self.item_name@,
            unit_name: self.unit_name@,
            quantity: self.quantity,
            quantity_scale: self.quantity_scale,
            unit_price_fils: self.unit_price_fils,
            line_total_fils: self.line_total_fils,
            status: self.status,
            voided_at: self.voided_at,
            void_reason: opt_chars(self.void_reason),
            created_at: self.created_at,
        }
    }
}

pub open spec fn field_error(fault: TextFault, field: ServiceVisitPartTextField) -> ServiceVisitPartValidationError {
    match fault {
        TextFault::TooLong => ServiceVisitPartValidationError::TextTooLong(field),
        TextFault::ForbiddenControl => ServiceVisitPartValidationError::TextContainsControlCharacter(
            field,
        ),
    }
}

pub open spec fn required_text(
    value: Seq<char>,
    maximum: nat,
    field: ServiceVisitPartTextField,
    blank: ServiceVisitPartValidationError,
    allow_formatting: bool,
) -> Result<Seq<char>, ServiceVisitPartValidationError> {
    let t = trimmed(value);
    if t.len() == 0 {
        Err(blank)
    } else {
        match text_fault(t, maximum, allow_formatting) {
            Some(fault) => Err(field_error(fault, field)),
            None => Ok(t),
        }
    }
}

pub open spec fn optional_text(
    value: Option<Seq<char>>,
    maximum: nat,
    field: ServiceVisitPartTextField,
    allow_formatting: bool,
) -> Result<Option<Seq<char>>, ServiceVisitPartValidationError> {
    match value {
        None => Ok(None),
        Some(v) => {
            let t = trimmed(v);
            if t.len() == 0 {
                Ok(None)
            } else {
                match text_fault(t, maximum, allow_formatting) {
                    Some(fault) => Err(field_error(fault, field)),
                    None => Ok(Some(t)),
                }
            }
        },
    }
}

/// Text as a part keeps it: trimmed, not blank, and acceptable for its field.
pub open spec fn canonical_text(s: Seq<char>, maximum: nat, allow_formatting: bool) -> bool {
    &&& s.len() > 0
    &&& trimmed(s) == s
    &&& text_fault(s, maximum, allow_formatting) is None
}

/// Everything a part made through this type satisfies: valid references and
/// amounts, canonical names, a line total computed from its quantity, scale
/// and price, and a void time and reason only when it is voided.
pub open spec fn well_formed(p: ServiceVisitPartView) -> bool {
    &&& p.service_visit_id > 0
    &&& p.inventory_item_id > 0
    &&& p.created_at >= 0
    &&& canonical_text(p.item_name, 150, false)
    &&& canonical_text(p.unit_name, 40, false)
    &&& 1 <= p.quantity <= MAX_QUANTITY
    &&& valid_scale(p.quantity_scale as int)
    &&& 0 <= p.unit_price_fils <= MAX_UNIT_PRICE_FILS
    &&& p.line_total_fils == line_total(
        p.quantity as int,
        p.quantity_scale as int,
        p.unit_price_fils as int,
    )
    &&& (p.status == ServiceVisitPartStatus::Voided <==> p.voided_at is Some)
    &&& p.voided_at is Some ==> p.created_at <= p.voided_at->0
    &&& p.void_reason is Some ==> p.status == ServiceVisitPartStatus::Voided && canonical_text(
        p.void_reason->0,
        1000,
        true,
    )
}

pub open spec fn valid_scale(scale: int) -> bool {
    scale == 1 || scale == 10 || scale == 100 || scale == 1000
}

/// The price of `quantity / scale` units at `unit_price_fils` each, rounded
/// to the nearest fils with halves rounded up.
pub open spec fn line_total(quantity: int, scale: int, unit_price_fils: int) -> int {
    (quantity * unit_price_fils + scale / 2) / scale
}

/// What `calculate_line_total_fils` gives.
pub open spec fn line_total_outcome(quantity: i64, scale: i64, unit_price_fils: i64) -> Result<
    i64,
    ServiceVisitPartValidationError,
> {
    if !(1 <= quantity <= MAX_QUANTITY) {
        Err(ServiceVisitPartValidationError::InvalidQuantity)
    } else if !valid_scale(scale as int) {
        Err(ServiceVisitPartValidationError::InvalidQuantityScale)
    } else if !(0 <= unit_price_fils <= MAX_UNIT_PRICE_FILS) {
        Err(ServiceVisitPartValidationError::InvalidUnitPrice)
    } else {
        Ok(line_total(quantity as int, scale as int, unit_price_fils as int) as i64)
    }
}

/// What `ServiceVisitPart::new` gives.
pub open spec fn part_outcome(input: NewServiceVisitPartInput) -> Result<
    ServiceVisitPartView,
    ServiceVisitPartValidationError,
> {
    if input.service_visit_id <= 0 {
        Err(ServiceVisitPartValidationError::InvalidServiceVisitId)
    } else if input.inventory_item_id <= 0 {
        Err(ServiceVisitPartValidationError::InvalidInventoryItemId)
    } else if input.created_at < 0 {
        Err(ServiceVisitPartValidationError::InvalidTimestamp)
    } else {
        match required_text(
            input.item_name@,
            150,
            ServiceVisitPartTextField::ItemName,
            ServiceVisitPartValidationError::BlankItemName,
            false,
        ) {
            Err(e) => Err(e),
            Ok(item_name) => match required_text(
                input.unit_name@,
                40,
                ServiceVisitPartTextField::UnitName,
                ServiceVisitPartValidationError::BlankUnitName,
                false,
            ) {
                Err(e) => Err(e),
                Ok(unit_name) => match line_total_outcome(
                    input.quantity,
                    input.quantity_scale,
                    input.unit_price_fils,
                ) {
                    Err(e) => Err(e),
                    Ok(total) => Ok(
                        ServiceVisitPartView {
                            service_visit_id: input.service_visit_id,
                            inventory_item_id: input.inventory_item_id,
                            item_name,
                            unit_name,
                            quantity: input.quantity,
                            quantity_scale: input.quantity_scale,
                            unit_price_fils: input.unit_price_fils,
                            line_total_fils: total,
                            status: ServiceVisitPartStatus::Active,
                            voided_at: None,
                            void_reason: None,
                            created_at: input.created_at,
                        },
                    ),
                },
            },
        }
    }
}

/// What `void` makes of a part.
pub open spec fn void_outcome(
    p: ServiceVisitPartView,
    voided_at: i64,
    reason: Option<Seq<char>>,
) -> Result<ServiceVisitPartView, ServiceVisitPartValidationError> {
    if p.status == ServiceVisitPartStatus::Voided {
        Err(ServiceVisitPartValidationError::PartAlreadyVoided)
    } else if voided_at < p.created_at {
        Err(ServiceVisitPartValidationError::InvalidTimestamp)
    } else {
        match optional_text(reason, 1000, ServiceVisitPartTextField::VoidReason, true) {
            Err(e) => Err(e),
            Ok(r) => Ok(
                ServiceVisitPartView {
                    status: ServiceVisitPartStatus::Voided,
                    voided_at: Some(voided_at),
                    void_reason: r,
                    ..p
                },
            ),
        }
    }
}

impl ServiceVisitPart {
    /// Every part is well formed: `new` establishes it and voiding keeps it.
    #[verifier::type_invariant]
    pub open spec fn is_well_formed(self) -> bool {
        well_formed(self@)
    }

    /// The part marked voided at the given time for the given reason, with
    /// everything else kept.
    fn voided(&self, voided_at: i64, void_reason: Option<String>) -> (r: ServiceVisitPart)
        requires
            well_formed(
                ServiceVisitPartView {
                    status: ServiceVisitPartStatus::Voided,
                    voided_at: Some(voided_at),
                    void_reason: opt_chars(void_reason),
                    ..self@
                },
            ),
        ensures
            r@ == (ServiceVisitPartView {
                status: ServiceVisitPartStatus::Voided,
                voided_at: Some(voided_at),
                void_reason: opt_chars(void_reason),
                ..self@
            }),
    {
        ServiceVisitPart {
            service_visit_id: self.service_visit_id,
            inventory_item_id: self.inventory_item_id,
            item_name: self.item_name.clone(),
            unit_name: self.unit_name.clone(),
            quantity: self.quantity,
            quantity_scale: self.quantity_scale,
            unit_price_fils: self.unit_price_fils,
            line_total_fils: self.line_total_fils,
            status: ServiceVisitPartStatus::Voided,
            voided_at: Some(voided_at),
            void_reason,
            created_at: self.created_at,
        }
    }

    pub fn new(input: NewServiceVisitPartInput) -> (r: Result<Self, ServiceVisitPartValidationError>)
        ensures
            match r {
                Ok(part) => part_outcome(input) == Ok::<
                    ServiceVisitPartView,
                    ServiceVisitPartValidationError,
                >(part@),
                Err(e) => part_outcome(input) == Err::<
                    ServiceVisitPartView,
                    ServiceVisitPartValidationError,
                >(e),
            },
            r matches Ok(part) ==> well_formed(part@),
    {
        proof {
            if part_outcome(input) is Ok {
                created_parts_are_well_formed(input);
            }
        }
        if input.service_visit_id <= 0 {
            return Err(ServiceVisitPartValidationError::InvalidServiceVisitId);
        }
        if input.inventory_item_id <= 0 {
            return Err(ServiceVisitPartValidationError::InvalidInventoryItemId);
        }
        if input.created_at < 0 {
            return Err(ServiceVisitPartValidationError::InvalidTimestamp);
        }
        let item_name = normalize_required(
            input.item_name,
            150,
            ServiceVisitPartTextField::ItemName,
            ServiceVisitPartValidationError::BlankItemName,
            false,
        )?;
        let unit_name = normalize_required(
            input.unit_name,
            40,
            ServiceVisitPartTextField::UnitName,
            ServiceVisitPartValidationError::BlankUnitName,
            false,
        )?;
        let line_total_fils = calculate_line_total_fils(
            input.quantity,
            input.quantity_scale,
            input.unit_price_fils,
        )?;
        Ok(
            ServiceVisitPart {
                service_visit_id: input.service_visit_id,
                inventory_item_id: input.inventory_item_id,
                item_name,
                unit_name,
                quantity: input.quantity,
                quantity_scale: input.quantity_scale,
                unit_price_fils: input.unit_price_fils,
                line_total_fils,
                status: ServiceVisitPartStatus::Active,
                voided_at: None,
                void_reason: None,
                created_at: input.created_at,
            },
        )
    }

    pub fn void(&mut self, voided_at: i64, reason: Option<String>) -> (r: Result<
        (),
        ServiceVisitPartValidationError,
    >)
        ensures
            match r {
                Ok(_) => void_outcome(old(self)@, voided_at, opt_chars(reason)) == Ok::<
                    ServiceVisitPartView,
                    ServiceVisitPartValidationError,
                >(final(self)@),
                Err(e) => void_outcome(old(self)@, voided_at, opt_chars(reason)) == Err::<
                    ServiceVisitPartView,
                    ServiceVisitPartValidationError,
                >(e) && final(self)@ == old(self)@,
            },
            well_formed(old(self)@),
            well_formed(final(self)@),
    {
        proof {
            use_type_invariant(&*self);
            if void_outcome(self@, voided_at, opt_chars(reason)) is Ok {
                voiding_keeps_parts_well_formed(self@, voided_at, opt_chars(reason));
            }
        }
        if self.status == ServiceVisitPartStatus::Voided {
            return Err(ServiceVisitPartValidationError::PartAlreadyVoided);
        }
        if voided_at < self.created_at {
            return Err(ServiceVisitPartValidationError::InvalidTimestamp);
        }
        let void_reason = normalize_optional(
            reason,
            1_000,
            ServiceVisitPartTextField::VoidReason,
            true,
        )?;
        let voided = self.voided(voided_at, void_reason);
        *self = voided;
        Ok(())
    }

    pub fn service_visit_id(&self) -> (r: i64)
        ensures
            r == self@.service_visit_id,
            well_formed(self@),
    {
        proof {
            use_type_invariant(self);
        }
        self.service_visit_id
    }

    pub fn inventory_item_id(&self) -> (r: i64)
        ensures
            r == self@.inventory_item_id,
            well_formed(self@),
    {
        proof {
            use_type_invariant(self);
        }
        self.inventory_item_id
    }

    pub fn item_name(&self) -> (r: &str)
        ensures
            r@ == self@.item_name,
            well_formed(self@),
    {
        proof {
            use_type_invariant(self);
        }
        self.item_name.as_str()
    }

    pub fn unit_name(&self) -> (r: &str)
        ensures
            r@ == self@.unit_name,
            well_formed(self@),
    {
        proof {
            use_type_invariant(self);
        }
        self.unit_name.as_str()
    }

    pub fn quantity(&self) -> (r: i64)
        ensures
            r == self@.quantity,
            well_formed(self@),
    {
        proof {
            use_type_invariant(self);
        }
        self.quantity
    }

    pub fn quantity_scale(&self) -> (r: i64)
        ensures
            r == self@.quantity_scale,
            well_formed(self@),
    {
        proof {
            use_type_invariant(self);
        }
        self.quantity_scale
    }

    pub fn unit_price_fils(&self) -> (r: i64)
        ensures
            r == self@.unit_price_fils,
            well_formed(self@),
    {
        proof {
            use_type_invariant(self);
        }
        self.unit_price_fils
    }

    pub fn line_total_fils(&self) -> (r: i64)
        ensures
            r == self@.line_total_fils,
            well_formed(self@),
    {
        proof {
            use_type_invariant(self);
        }
        self.line_total_fils
    }

    pub fn status(&self) -> (r: ServiceVisitPartStatus)
        ensures
            r == self@.status,
            well_formed(self@),
    {
        proof {
            use_type_invariant(self);
        }
        self.status
    }

    pub fn voided_at(&self) -> (r: Option<i64>)
        ensures
            r == self@.voided_at,
            well_formed(self@),
    {
        proof {
            use_type_invariant(self);
        }
        self.voided_at
    }

    pub fn void_reason(&self) -> (r: Option<&str>)
        ensures
            match r {
                Some(s) => self@.void_reason == Some(s@),
                None => self@.void_reason.is_none(),
            },
            well_formed(self@),
    {
        proof {
            use_type_invariant(self);
        }
        opt_as_str(&self.void_reason)
    }

    pub fn created_at(&self) -> (r: i64)
        ensures
            r == self@.created_at,
            well_formed(self@),
    {
        proof {
            use_type_invariant(self);
        }
        self.created_at
    }
}

/// The line total of `quantity` (in thousandths, hundredths, tenths or whole
/// units as `quantity_scale` says) at `unit_price_fils` per whole unit.
pub fn calculate_line_total_fils(quantity: i64, quantity_scale: i64, unit_price_fils: i64) -> (r:
    Result<i64, ServiceVisitPartValidationError>)
    ensures
        match r {
            Ok(total) => line_total_outcome(quantity, quantity_scale, unit_price_fils) == Ok::<
                i64,
                ServiceVisitPartValidationError,
            >(total),
            Err(e) => line_total_outcome(quantity, quantity_scale, unit_price_fils) == Err::<
                i64,
                ServiceVisitPartValidationError,
            >(e),
        },
{
    if !(1 <= quantity && quantity <= MAX_QUANTITY) {
        return Err(ServiceVisitPartValidationError::InvalidQuantity);
    }
    if !(quantity_scale == 1 || quantity_scale == 10 || quantity_scale == 100 || quantity_scale
        == 1_000) {
        return Err(ServiceVisitPartValidationError::InvalidQuantityScale);
    }
    if !(0 <= unit_price_fils && unit_price_fils <= MAX_UNIT_PRICE_FILS) {
        return Err(ServiceVisitPartValidationError::InvalidUnitPrice);
    }
    assert(0 <= quantity * unit_price_fils <= 1_000_000_000_000_000_000) by (nonlinear_arith)
        requires
            1 <= quantity <= 1_000_000_000,
            0 <= unit_price_fils <= 1_000_000_000,
    ;
    let numerator = match quantity.checked_mul(unit_price_fils) {
        Some(value) => value,
        None => {
            return Err(ServiceVisitPartValidationError::CalculationOverflow);
        },
    };
    let rounded = match numerator.checked_add(quantity_scale / 2) {
        Some(value) => value,
        None => {
            return Err(ServiceVisitPartValidationError::CalculationOverflow);
        },
    };
    Ok(rounded / quantity_scale)
}

fn normalize_required(
    value: String,
    maximum: usize,
    field: ServiceVisitPartTextField,
    blank: ServiceVisitPartValidationError,
    allow_formatting: bool,
) -> (r: Result<String, ServiceVisitPartValidationError>)
    ensures
        match r {
            Ok(s) => required_text(value@, maximum as nat, field, blank, allow_formatting) == Ok::<
                Seq<char>,
                ServiceVisitPartValidationError,
            >(s@),
            Err(e) => required_text(value@, maximum as nat, field, blank, allow_formatting) == Err::<
                Seq<char>,
                ServiceVisitPartValidationError,
            >(e),
        },
{
    let (text, chars) = trim_text(value.as_str());
    if chars.len() == 0 {
        return Err(blank);
    }
    validate_text(&chars, maximum, field, allow_formatting)?;
    Ok(text)
}

fn normalize_optional(
    value: Option<String>,
    maximum: usize,
    field: ServiceVisitPartTextField,
    allow_formatting: bool,
) -> (r: Result<Option<String>, ServiceVisitPartValidationError>)
    ensures
        match r {
            Ok(s) => optional_text(opt_chars(value), maximum as nat, field, allow_formatting) == Ok::<
                Option<Seq<char>>,
                ServiceVisitPartValidationError,
            >(opt_chars(s)),
            Err(e) => optional_text(opt_chars(value), maximum as nat, field, allow_formatting)
                == Err::<Option<Seq<char>>, ServiceVisitPartValidationError>(e),
        },
{
    let value = match value {
        None => {
            return Ok(None);
        },
        Some(value) => value,
    };
    let (text, chars) = trim_text(value.as_str());
    if chars.len() == 0 {
        return Ok(None);
    }
    validate_text(&chars, maximum, field, allow_formatting)?;
    Ok(Some(text))
}

fn validate_text(
    value: &Vec<char>,
    maximum: usize,
    field: ServiceVisitPartTextField,
    allow_formatting: bool,
) -> (r: Result<(), ServiceVisitPartValidationError>)
    ensures
        match text_fault(value@, maximum as nat, allow_formatting) {
            Some(fault) => r == Err::<(), ServiceVisitPartValidationError>(field_error(fault, field)),
            None => r is Ok,
        },
{
    match check_text(value, maximum, allow_formatting) {
        Some(TextFault::TooLong) => Err(ServiceVisitPartValidationError::TextTooLong(field)),
        Some(TextFault::ForbiddenControl) => Err(
            ServiceVisitPartValidationError::TextContainsControlCharacter(field),
        ),
        None => Ok(()),
    }
}

} // verus!

verus! {

/// A part can be voided once: voiding it again is refused whatever the time
/// and the reason.
pub proof fn voiding_is_final(
    p: ServiceVisitPartView,
    voided_at: i64,
    reason: Option<Seq<char>>,
    again_at: i64,
    again_reason: Option<Seq<char>>,
)
    requires
        void_outcome(p, voided_at, reason) is Ok,
    ensures
        void_outcome(void_outcome(p, voided_at, reason)->Ok_0, again_at, again_reason) == Err::<
            ServiceVisitPartView,
            ServiceVisitPartValidationError,
        >(ServiceVisitPartValidationError::PartAlreadyVoided),
{
}

/// Voiding keeps everything that was priced: quantity, price and line total.
pub proof fn voiding_keeps_the_priced_line(
    p: ServiceVisitPartView,
    voided_at: i64,
    reason: Option<Seq<char>>,
)
    requires
        void_outcome(p, voided_at, reason) is Ok,
    ensures
        ({
            let q = void_outcome(p, voided_at, reason)->Ok_0;
            &&& q.quantity == p.quantity
            &&& q.quantity_scale == p.quantity_scale
            &&& q.unit_price_fils == p.unit_price_fils
            &&& q.line_total_fils == p.line_total_fils
            &&& q.item_name == p.item_name
            &&& q.created_at == p.created_at
        }),
{
}

/// The line total is the exact price rounded to the nearest fils, halves
/// rounded up; whole units are priced exactly.
pub proof fn line_total_rounds_to_nearest(quantity: int, scale: int, unit_price_fils: int)
    requires
        1 <= quantity,
        0 <= unit_price_fils,
        valid_scale(scale),
    ensures
        line_total(quantity, scale, unit_price_fils) * scale <= quantity * unit_price_fils + scale
            / 2,
        quantity * unit_price_fils + scale / 2 < (line_total(quantity, scale, unit_price_fils) + 1)
            * scale,
        scale == 1 ==> line_total(quantity, scale, unit_price_fils) == quantity * unit_price_fils,
{
    let x = quantity * unit_price_fils + scale / 2;
    assert(x / scale * scale <= x < (x / scale + 1) * scale) by (nonlinear_arith)
        requires
            scale > 0,
            x >= 0,
    ;
}

/// A part that the rules produced, rebuilt from its stored fields, comes out
/// exactly as it was: its names are already trimmed and acceptable, and its
/// line total is computed again from the same quantity, scale and price.
pub proof fn rebuilding_a_part_from_its_fields_reproduces_it(
    input: NewServiceVisitPartInput,
    stored: NewServiceVisitPartInput,
)
    requires
        part_outcome(input) is Ok,
        ({
            let p = part_outcome(input)->Ok_0;
            &&& stored.service_visit_id == p.service_visit_id
            &&& stored.inventory_item_id == p.inventory_item_id
            &&& stored.item_name@ == p.item_name
            &&& stored.unit_name@ == p.unit_name
            &&& stored.quantity == p.quantity
            &&& stored.quantity_scale == p.quantity_scale
            &&& stored.unit_price_fils == p.unit_price_fils
            &&& stored.created_at == p.created_at
        }),
    ensures
        part_outcome(stored) == part_outcome(input),
{
    trim_is_idempotent(input.item_name@);
    trim_is_idempotent(input.unit_name@);
}

/// Every part the rules produce is well formed.
pub proof fn created_parts_are_well_formed(input: NewServiceVisitPartInput)
    requires
        part_outcome(input) is Ok,
    ensures
        well_formed(part_outcome(input)->Ok_0),
{
    trim_is_idempotent(input.item_name@);
    trim_is_idempotent(input.unit_name@);
    let q = input.quantity as int;
    let sc = input.quantity_scale as int;
    let pr = input.unit_price_fils as int;
    assert(0 <= q * pr <= 1_000_000_000_000_000_000) by (nonlinear_arith)
        requires
            1 <= q <= 1_000_000_000,
            0 <= pr <= 1_000_000_000,
    ;
    assert(0 <= (q * pr + sc / 2) / sc <= q * pr + sc / 2) by (nonlinear_arith)
        requires
            q * pr >= 0,
            sc >= 1,
    ;
}

/// Voiding a well-formed part leaves it well formed.
pub proof fn voiding_keeps_parts_well_formed(
    p: ServiceVisitPartView,
    voided_at: i64,
    reason: Option<Seq<char>>,
)
    requires
        well_formed(p),
        void_outcome(p, voided_at, reason) is Ok,
    ensures
        well_formed(void_outcome(p, voided_at, reason)->Ok_0),
{
    if let Some(r) = reason {
        trim_is_idempotent(r);
    }
}


/// Every input already in the shape of a well-formed part is accepted as it
/// stands: positive references, a time not before zero, an item name of 1 to
/// 150 and a unit name of 1 to 40 trimmed characters without control
/// characters, and a valid quantity, scale and price give an active part with
/// exactly those fields and the rounded line total.
pub proof fn well_formed_inputs_are_accepted(input: NewServiceVisitPartInput)
    requires
        input.service_visit_id > 0,
        input.inventory_item_id > 0,
        input.created_at >= 0,
        canonical_text(input.item_name@, 150, false),
        canonical_text(input.unit_name@, 40, false),
        1 <= input.quantity <= 1_000_000_000,
        input.quantity_scale == 1 || input.quantity_scale == 10 || input.quantity_scale == 100
            || input.quantity_scale == 1000,
        0 <= input.unit_price_fils <= 1_000_000_000,
    ensures
        part_outcome(input) is Ok,
        ({
            let p = part_outcome(input)->Ok_0;
            &&& p.service_visit_id == input.service_visit_id
            &&& p.inventory_item_id == input.inventory_item_id
            &&& p.item_name == input.item_name@
            &&& p.unit_name == input.unit_name@
            &&& p.quantity == input.quantity
            &&& p.quantity_scale == input.quantity_scale
            &&& p.unit_price_fils == input.unit_price_fils
            &&& p.line_total_fils == line_total(
                input.quantity as int,
                input.quantity_scale as int,
                input.unit_price_fils as int,
            )
            &&& p.status == ServiceVisitPartStatus::Active
            &&& p.voided_at is None
            &&& p.created_at == input.created_at
        }),
{
    created_parts_are_well_formed(input);
}

/// An active part is voided, at or after its creation, with any reason of at
/// most 1000 trimmed characters (or none): it records the time and the reason
/// as kept and keeps its priced line.
pub proof fn active_parts_void_with_any_short_reason(
    p: ServiceVisitPartView,
    voided_at: i64,
    reason: Option<Seq<char>>,
)
    requires
        p.status == ServiceVisitPartStatus::Active,
        voided_at >= p.created_at,
        reason matches Some(text) ==> fits_field(text, 1000, true),
    ensures
        void_outcome(p, voided_at, reason) == Ok::<ServiceVisitPartView, ServiceVisitPartValidationError>(
            ServiceVisitPartView {
                status: ServiceVisitPartStatus::Voided,
                voided_at: Some(voided_at),
                void_reason: kept_text(reason),
                ..p
            },
        ),
{
}

/// A part whose references and time are valid is refused as too long when its
/// trimmed item name has more than 150 characters, or when its item name is
/// acceptable and its trimmed unit name has more than 40.
pub proof fn overlong_part_names_are_refused(input: NewServiceVisitPartInput)
    requires
        input.service_visit_id > 0,
        input.inventory_item_id > 0,
        input.created_at >= 0,
    ensures
        trimmed(input.item_name@).len() > 150 ==> part_outcome(input) == Err::<
            ServiceVisitPartView,
            ServiceVisitPartValidationError,
        >(ServiceVisitPartValidationError::TextTooLong(ServiceVisitPartTextField::ItemName)),
        1 <= trimmed(input.item_name@).len() && fits_field(input.item_name@, 150, false) && trimmed(
            input.unit_name@,
        ).len() > 40 ==> part_outcome(input) == Err::<
            ServiceVisitPartView,
            ServiceVisitPartValidationError,
        >(ServiceVisitPartValidationError::TextTooLong(ServiceVisitPartTextField::UnitName)),
{
}
} // verus!

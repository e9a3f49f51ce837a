//! Inventory units, items and stock movements, with the bounds that the
//! workshop places on quantities, prices and free text.

use vstd::prelude::*;

use crate::text::{
    check_text, fits_field, has_forbidden_control, kept_text, opt_as_str, opt_chars, text_fault, trim_is_idempotent, trim_text, trimmed, TextFault,
};

verus! {

pub const MAX_STORED_QUANTITY: i64 = 1_000_000_000;

pub const MAX_PRICE_FILS: i64 = 1_000_000_000;

#[derive(Debug, Clone, Copy, PartialEq, Eq)]
pub enum InventoryTextField {
    UnitName,
    ItemName,
    Sku,
    Notes,
    MovementNotes,
}

#[derive(Debug, Clone, Copy, PartialEq, Eq)]
pub enum StockMovementType {
    OpeningStock,
    Purchase,
    AdjustmentIn,
    AdjustmentOut,
}

#[derive(Debug, Clone, Copy, PartialEq, Eq)]
pub enum InventoryValidationError {
    BlankUnitName,
    BlankItemName,
    InvalidQuantityScale,
    InvalidUnitId,
    InvalidPurchasePrice,
    InvalidSellingPrice,
    InvalidMinimumStock,
    InvalidInventoryItemId,
    InvalidTimestamp,
    InvalidQuantityDelta { movement_type: StockMovementType },
    TextTooLong(InventoryTextField),
    TextContainsControlCharacter(InventoryTextField),
}

/// The text fault of a field, as the error that names the field.
pub open spec fn field_error(fault: TextFault, field: InventoryTextField) -> InventoryValidationError {
    match fault {
        TextFault::TooLong => InventoryValidationError::TextTooLong(field),
        TextFault::ForbiddenControl => InventoryValidationError::TextContainsControlCharacter(field),
    }
}

/// Required text: trimmed, then non-blank and within the field's rules.
pub open spec fn required_text(
    value: Seq<char>,
    maximum: nat,
    field: InventoryTextField,
    blank_error: InventoryValidationError,
    allow_formatting: bool,
) -> Result<Seq<char>, InventoryValidationError> {
    let t = trimmed(value);
    if t.len() == 0 {
        Err(blank_error)
    } else {
        match text_fault(t, maximum, allow_formatting) {
            Some(fault) => Err(field_error(fault, field)),
            None => Ok(t),
        }
    }
}

/// Optional text: absent or blank becomes absent; otherwise as required text.
pub open spec fn optional_text(
    value: Option<Seq<char>>,
    maximum: nat,
    field: InventoryTextField,
    allow_formatting: bool,
) -> Result<Option<Seq<char>>, InventoryValidationError> {
    match value {
        None => Ok(None),
        Some(v) => {
            let t = trimmed(v);
            if t.len() == 0 {
                Ok(None)
            } else {
                match text_fault(t, maximum, allow_formatting) {
                    Some(fault) => Err(field_error(fault, field)),
                    None => Ok(Some(t)),
                }
            }
        },
    }
}

pub open spec fn valid_quantity_scale(value: int) -> bool {
    value == 1 || value == 10 || value == 100 || value == 1000
}

pub open spec fn within_price(value: int) -> bool {
    0 <= value <= MAX_PRICE_FILS
}

pub open spec fn within_quantity(value: int) -> bool {
    0 <= value <= MAX_STORED_QUANTITY
}

/// Inbound movements add between 1 and the stored maximum; outbound ones
/// remove as much.
pub open spec fn valid_quantity_delta(movement_type: StockMovementType, delta: int) -> bool {
    match movement_type {
        StockMovementType::AdjustmentOut => -MAX_STORED_QUANTITY <= delta <= -1,
        _ => 1 <= delta <= MAX_STORED_QUANTITY,
    }
}

#[derive(Debug, Clone, Copy, PartialEq, Eq)]
pub struct QuantityScale(i64);

impl View for QuantityScale {
    type V = i64;

    closed spec fn view(&self) -> i64 {
        self.0
    }
}

impl QuantityScale {
    pub fn new(value: i64) -> (r: Result<Self, InventoryValidationError>)
        ensures
            match r {
                Ok(scale) => valid_quantity_scale(value as int) && scale@ == value,
                Err(e) => !valid_quantity_scale(value as int) && e
                    == InventoryValidationError::InvalidQuantityScale,
            },
    {
        if !(value == 1 || value == 10 || value == 100 || value == 1_000) {
            return Err(InventoryValidationError::InvalidQuantityScale);
        }
        Ok(QuantityScale(value))
    }

    pub fn as_i64(self) -> (r: i64)
        ensures
            r == self@,
    {
        self.0
    }
}

#[derive(Debug, PartialEq, Eq)]
pub struct NewInventoryUnitInput {
    pub name: String,
    pub quantity_scale: i64,
}

#[derive(Debug, PartialEq, Eq)]
pub struct InventoryUnit {
    name: String,
    quantity_scale: QuantityScale,
}

pub struct InventoryUnitView {
    pub name: Seq<char>,
    pub quantity_scale: i64,
}

impl View for InventoryUnit {
    type V = InventoryUnitView;

    closed spec fn view(&self) -> InventoryUnitView {
        InventoryUnitView { name: self.name@, quantity_scale: self.quantity_scale@ }
    }
}

/// What `InventoryUnit::new` gives: the name is checked before the scale.
pub open spec fn inventory_unit_outcome(input: NewInventoryUnitInput) -> Result<
    InventoryUnitView,
    InventoryValidationError,
> {
    match required_text(
        input.name@,
        40,
        InventoryTextField::UnitName,
        InventoryValidationError::BlankUnitName,
        false,
    ) {
        Err(e) => Err(e),
        Ok(name) => if valid_quantity_scale(input.quantity_scale as int) {
            Ok(InventoryUnitView { name, quantity_scale: input.quantity_scale })
        } else {
            Err(InventoryValidationError::InvalidQuantityScale)
        },
    }
}

impl InventoryUnit {
    pub fn new(input: NewInventoryUnitInput) -> (r: Result<Self, InventoryValidationError>)
        ensures
            match r {
                Ok(unit) => inventory_unit_outcome(input) == Ok::<
                    InventoryUnitView,
                    InventoryValidationError,
                >(unit@),
                Err(e) => inventory_unit_outcome(input) == Err::<
                    InventoryUnitView,
                    InventoryValidationError,
                >(e),
            },
    {
        let name = normalize_required_text(
            input.name,
            40,
            InventoryTextField::UnitName,
            InventoryValidationError::BlankUnitName,
            false,
        )?;
        let quantity_scale = QuantityScale::new(input.quantity_scale)?;
        Ok(InventoryUnit { name, quantity_scale })
    }

    pub fn name(&self) -> (r: &str)
        ensures
            r@ == self@.name,
    {
        self.name.as_str()
    }

    pub fn quantity_scale(&self) -> (r: QuantityScale)
        ensures
            r@ == self@.quantity_scale,
    {
        self.quantity_scale
    }
}

#[derive(Debug, PartialEq, Eq)]
pub struct NewInventoryItemInput {
    pub name: String,
    pub sku: Option<String>,
    pub unit_id: i64,
    pub default_purchase_price_fils: Option<i64>,
    pub default_selling_price_fils: i64,
    pub minimum_stock_quantity: i64,
    pub notes: Option<String>,
}

#[derive(Debug, PartialEq, Eq)]
pub struct InventoryItem {
    name: String,
    sku: Option<String>,
    unit_id: i64,
    default_purchase_price_fils: Option<i64>,
    default_selling_price_fils: i64,
    minimum_stock_quantity: i64,
    notes: Option<String>,
}

pub struct InventoryItemView {
    pub name: Seq<char>,
    pub sku: Option<Seq<char>>,
    pub unit_id: i64,
    pub default_purchase_price_fils: Option<i64>,
    pub default_selling_price_fils: i64,
    pub minimum_stock_quantity: i64,
    pub notes: Option<Seq<char>>,
}

impl View for InventoryItem {
    type V = InventoryItemView;

    closed spec fn view(&self) -> InventoryItemView {
        InventoryItemView {
            name: self.name@,
            sku: opt_chars(self.sku),
            unit_id: self.unit_id,
            default_purchase_price_fils: self.default_purchase_price_fils,
            default_selling_price_fils: self.default_selling_price_fils,
            minimum_stock_quantity: self.minimum_stock_quantity,
            notes: opt_chars(self.notes),
        }
    }
}

/// What `InventoryItem::new` gives: identifiers and amounts are checked
/// first, in field order, then the name, the SKU and the notes.
pub open spec fn inventory_item_outcome(input: NewInventoryItemInput) -> Result<
    InventoryItemView,
    InventoryValidationError,
> {
    if input.unit_id <= 0 {
        Err(InventoryValidationError::InvalidUnitId)
    } else if input.default_purchase_price_fils.is_some() && !within_price(
        input.default_purchase_price_fils.unwrap() as int,
    ) {
        Err(InventoryValidationError::InvalidPurchasePrice)
    } else if !within_price(input.default_selling_price_fils as int) {
        Err(InventoryValidationError::InvalidSellingPrice)
    } else if !within_quantity(input.minimum_stock_quantity as int) {
        Err(InventoryValidationError::InvalidMinimumStock)
    } else {
        match required_text(
            input.name@,
            150,
            InventoryTextField::ItemName,
            InventoryValidationError::BlankItemName,
            false,
        ) {
            Err(e) => Err(e),
            Ok(name) => match optional_text(opt_chars(input.sku), 64, InventoryTextField::Sku, false) {
                Err(e) => Err(e),
                Ok(sku) => match optional_text(
                    opt_chars(input.notes),
                    2000,
                    InventoryTextField::Notes,
                    true,
                ) {
                    Err(e) => Err(e),
                    Ok(notes) => Ok(
                        InventoryItemView {
                            name,
                            sku,
                            unit_id: input.unit_id,
                            default_purchase_price_fils: input.default_purchase_price_fils,
                            default_selling_price_fils: input.default_selling_price_fils,
                            minimum_stock_quantity: input.minimum_stock_quantity,
                            notes,
                        },
                    ),
                },
            },
        }
    }
}

impl InventoryItem {
    pub fn new(input: NewInventoryItemInput) -> (r: Result<Self, InventoryValidationError>)
        ensures
            match r {
                Ok(item) => inventory_item_outcome(input) == Ok::<
                    InventoryItemView,
                    InventoryValidationError,
                >(item@),
                Err(e) => inventory_item_outcome(input) == Err::<
                    InventoryItemView,
                    InventoryValidationError,
                >(e),
            },
    {
        if input.unit_id <= 0 {
            return Err(InventoryValidationError::InvalidUnitId);
        }
        match input.default_purchase_price_fils {
            Some(price) => {
                if !(0 <= price && price <= MAX_PRICE_FILS) {
                    return Err(InventoryValidationError::InvalidPurchasePrice);
                }
            },
            None => {},
        }
        if !(0 <= input.default_selling_price_fils && input.default_selling_price_fils
            <= MAX_PRICE_FILS) {
            return Err(InventoryValidationError::InvalidSellingPrice);
        }
        if !(0 <= input.minimum_stock_quantity && input.minimum_stock_quantity
            <= MAX_STORED_QUANTITY) {
            return Err(InventoryValidationError::InvalidMinimumStock);
        }
        let name = normalize_required_text(
            input.name,
            150,
            InventoryTextField::ItemName,
            InventoryValidationError::BlankItemName,
            false,
        )?;
        let sku = normalize_optional_text(input.sku, 64, InventoryTextField::Sku, false)?;
        let notes = normalize_optional_text(input.notes, 2_000, InventoryTextField::Notes, true)?;
        Ok(
            InventoryItem {
                name,
                sku,
                unit_id: input.unit_id,
                default_purchase_price_fils: input.default_purchase_price_fils,
                default_selling_price_fils: input.default_selling_price_fils,
                minimum_stock_quantity: input.minimum_stock_quantity,
                notes,
            },
        )
    }

    pub fn name(&self) -> (r: &str)
        ensures
            r@ == self@.name,
    {
        self.name.as_str()
    }

    pub fn sku(&self) -> (r: Option<&str>)
        ensures
            match r {
                Some(s) => self@.sku == Some(s@),
                None => self@.sku.is_none(),
            },
    {
        opt_as_str(&self.sku)
    }

    pub fn unit_id(&self) -> (r: i64)
        ensures
            r == self@.unit_id,
    {
        self.unit_id
    }

    pub fn default_purchase_price_fils(&self) -> (r: Option<i64>)
        ensures
            r == self@.default_purchase_price_fils,
    {
        self.default_purchase_price_fils
    }

    pub fn default_selling_price_fils(&self) -> (r: i64)
        ensures
            r == self@.default_selling_price_fils,
    {
        self.default_selling_price_fils
    }

    pub fn minimum_stock_quantity(&self) -> (r: i64)
        ensures
            r == self@.minimum_stock_quantity,
    {
        self.minimum_stock_quantity
    }

    pub fn notes(&self) -> (r: Option<&str>)
        ensures
            match r {
                Some(s) => self@.notes == Some(s@),
                None => self@.notes.is_none(),
            },
    {
        opt_as_str(&self.notes)
    }
}

#[derive(Debug, PartialEq, Eq)]
pub struct NewStockMovementInput {
    pub inventory_item_id: i64,
    pub movement_type: StockMovementType,
    pub quantity_delta: i64,
    pub notes: Option<String>,
    pub created_at: i64,
}

#[derive(Debug, PartialEq, Eq)]
pub struct StockMovement {
    inventory_item_id: i64,
    movement_type: StockMovementType,
    quantity_delta: i64,
    notes: Option<String>,
    created_at: i64,
}

pub struct StockMovementView {
    pub inventory_item_id: i64,
    pub movement_type: StockMovementType,
    pub quantity_delta: i64,
    pub notes: Option<Seq<char>>,
    pub created_at: i64,
}

impl View for StockMovement {
    type V = StockMovementView;

    closed spec fn view(&self) -> StockMovementView {
        StockMovementView {
            inventory_item_id: self.inventory_item_id,
            movement_type: self.movement_type,
            quantity_delta: self.quantity_delta,
            notes: opt_chars(self.notes),
            created_at: self.created_at,
        }
    }
}

/// What `StockMovement::new` gives, on the views of its input.
pub open spec fn movement_outcome(
    inventory_item_id: i64,
    movement_type: StockMovementType,
    quantity_delta: i64,
    notes: Option<Seq<char>>,
    created_at: i64,
) -> Result<StockMovementView, InventoryValidationError> {
    if inventory_item_id <= 0 {
        Err(InventoryValidationError::InvalidInventoryItemId)
    } else if created_at < 0 {
        Err(InventoryValidationError::InvalidTimestamp)
    } else if !valid_quantity_delta(movement_type, quantity_delta as int) {
        Err(InventoryValidationError::InvalidQuantityDelta { movement_type })
    } else {
        match optional_text(notes, 2000, InventoryTextField::MovementNotes, true) {
            Err(e) => Err(e),
            Ok(notes) => Ok(
                StockMovementView {
                    inventory_item_id,
                    movement_type,
                    quantity_delta,
                    notes,
                    created_at,
                },
            ),
        }
    }
}

/// What `StockMovement::new` gives.
pub open spec fn stock_movement_outcome(input: NewStockMovementInput) -> Result<
    StockMovementView,
    InventoryValidationError,
> {
    movement_outcome(
        input.inventory_item_id,
        input.movement_type,
        input.quantity_delta,
        opt_chars(input.notes),
        input.created_at,
    )
}

impl StockMovement {
    pub fn new(input: NewStockMovementInput) -> (r: Result<Self, InventoryValidationError>)
        ensures
            match r {
                Ok(movement) => stock_movement_outcome(input) == Ok::<
                    StockMovementView,
                    InventoryValidationError,
                >(movement@),
                Err(e) => stock_movement_outcome(input) == Err::<
                    StockMovementView,
                    InventoryValidationError,
                >(e),
            },
    {
        if input.inventory_item_id <= 0 {
            return Err(InventoryValidationError::InvalidInventoryItemId);
        }
        if input.created_at < 0 {
            return Err(InventoryValidationError::InvalidTimestamp);
        }
        let valid_quantity = match input.movement_type {
            StockMovementType::OpeningStock
            | StockMovementType::Purchase
            | StockMovementType::AdjustmentIn => 1 <= input.quantity_delta
                && input.quantity_delta <= MAX_STORED_QUANTITY,
            StockMovementType::AdjustmentOut => -MAX_STORED_QUANTITY <= input.quantity_delta
                && input.quantity_delta <= -1,
        };
        if !valid_quantity {
            return Err(
                InventoryValidationError::InvalidQuantityDelta {
                    movement_type: input.movement_type,
                },
            );
        }
        let notes = normalize_optional_text(
            input.notes,
            2_000,
            InventoryTextField::MovementNotes,
            true,
        )?;
        Ok(
            StockMovement {
                inventory_item_id: input.inventory_item_id,
                movement_type: input.movement_type,
                quantity_delta: input.quantity_delta,
                notes,
                created_at: input.created_at,
            },
        )
    }

    pub fn inventory_item_id(&self) -> (r: i64)
        ensures
            r == self@.inventory_item_id,
    {
        self.inventory_item_id
    }

    pub fn movement_type(&self) -> (r: StockMovementType)
        ensures
            r == self@.movement_type,
    {
        self.movement_type
    }

    pub fn quantity_delta(&self) -> (r: i64)
        ensures
            r == self@.quantity_delta,
    {
        self.quantity_delta
    }

    pub fn notes(&self) -> (r: Option<&str>)
        ensures
            match r {
                Some(s) => self@.notes == Some(s@),
                None => self@.notes.is_none(),
            },
    {
        opt_as_str(&self.notes)
    }

    pub fn created_at(&self) -> (r: i64)
        ensures
            r == self@.created_at,
    {
        self.created_at
    }
}

fn normalize_required_text(
    value: String,
    maximum_characters: usize,
    field: InventoryTextField,
    blank_error: InventoryValidationError,
    allow_formatting_controls: bool,
) -> (r: Result<String, InventoryValidationError>)
    ensures
        match r {
            Ok(s) => required_text(
                value@,
                maximum_characters as nat,
                field,
                blank_error,
                allow_formatting_controls,
            ) == Ok::<Seq<char>, InventoryValidationError>(s@),
            Err(e) => required_text(
                value@,
                maximum_characters as nat,
                field,
                blank_error,
                allow_formatting_controls,
            ) == Err::<Seq<char>, InventoryValidationError>(e),
        },
{
    let (text, chars) = trim_text(value.as_str());
    if chars.len() == 0 {
        return Err(blank_error);
    }
    validate_text(&chars, maximum_characters, field, allow_formatting_controls)?;
    Ok(text)
}

fn normalize_optional_text(
    value: Option<String>,
    maximum_characters: usize,
    field: InventoryTextField,
    allow_formatting_controls: bool,
) -> (r: Result<Option<String>, InventoryValidationError>)
    ensures
        match r {
            Ok(s) => optional_text(
                opt_chars(value),
                maximum_characters as nat,
                field,
                allow_formatting_controls,
            ) == Ok::<Option<Seq<char>>, InventoryValidationError>(opt_chars(s)),
            Err(e) => optional_text(
                opt_chars(value),
                maximum_characters as nat,
                field,
                allow_formatting_controls,
            ) == Err::<Option<Seq<char>>, InventoryValidationError>(e),
        },
{
    let value = match value {
        None => {
            return Ok(None);
        },
        Some(value) => value,
    };
    let (text, chars) = trim_text(value.as_str());
    if chars.len() == 0 {
        return Ok(None);
    }
    validate_text(&chars, maximum_characters, field, allow_formatting_controls)?;
    Ok(Some(text))
}

fn validate_text(
    value: &Vec<char>,
    maximum_characters: usize,
    field: InventoryTextField,
    allow_formatting_controls: bool,
) -> (r: Result<(), InventoryValidationError>)
    ensures
        match text_fault(value@, maximum_characters as nat, allow_formatting_controls) {
            Some(fault) => r == Err::<(), InventoryValidationError>(field_error(fault, field)),
            None => r is Ok,
        },
{
    match check_text(value, maximum_characters, allow_formatting_controls) {
        Some(TextFault::TooLong) => Err(InventoryValidationError::TextTooLong(field)),
        Some(TextFault::ForbiddenControl) => Err(
            InventoryValidationError::TextContainsControlCharacter(field),
        ),
        None => Ok(()),
    }
}

} // verus!

verus! {

/// An item entered again exactly as it was validated is validated unchanged:
/// its name, SKU and notes are already trimmed and acceptable.
pub proof fn validating_an_item_again_changes_nothing(
    input: NewInventoryItemInput,
    again: NewInventoryItemInput,
)
    requires
        inventory_item_outcome(input) is Ok,
        ({
            let v = inventory_item_outcome(input)->Ok_0;
            &&& again.name@ == v.name
            &&& opt_chars(again.sku) == v.sku
            &&& again.unit_id == v.unit_id
            &&& again.default_purchase_price_fils == v.default_purchase_price_fils
            &&& again.default_selling_price_fils == v.default_selling_price_fils
            &&& again.minimum_stock_quantity == v.minimum_stock_quantity
            &&& opt_chars(again.notes) == v.notes
        }),
    ensures
        inventory_item_outcome(again) == inventory_item_outcome(input),
{
    trim_is_idempotent(input.name@);
    if let Some(sku) = input.sku {
        trim_is_idempotent(sku@);
    }
    if let Some(notes) = input.notes {
        trim_is_idempotent(notes@);
    }
}


/// The amounts and references of an item are within their bounds: a unit,
/// prices of at most a million dinars in fils, and a minimum stock of at most
/// the stored maximum.
pub open spec fn item_amounts_valid(input: NewInventoryItemInput) -> bool {
    &&& input.unit_id > 0
    &&& (input.default_purchase_price_fils matches Some(p) ==> 0 <= p <= 1_000_000_000)
    &&& 0 <= input.default_selling_price_fils <= 1_000_000_000
    &&& 0 <= input.minimum_stock_quantity <= 1_000_000_000
}

/// Optional text that a field takes: absent, or at most `maximum`
/// characters once trimmed with no control character the field refuses.
pub open spec fn acceptable_optional(value: Option<String>, maximum: nat, allow_formatting: bool) -> bool {
    value matches Some(v) ==> trimmed(v@).len() <= maximum && !has_forbidden_control(
        trimmed(v@),
        allow_formatting,
    )
}

/// An item name holds up to 150 characters, a SKU up to 64 and the notes up
/// to 2000, each counted once trimmed. With its amounts valid, an item whose
/// trimmed name has 1 to 150 characters and whose texts hold no refused
/// control character is accepted with its texts trimmed (a blank SKU or note
/// dropped) and its amounts as given; each text over its limit is refused as
/// too long, in the order name, SKU, notes.
pub proof fn item_names_hold_up_to_150_characters(input: NewInventoryItemInput)
    requires
        item_amounts_valid(input),
    ensures
        1 <= trimmed(input.name@).len() && fits_field(input.name@, 150, false)
            && acceptable_optional(input.sku, 64, false) && acceptable_optional(
            input.notes,
            2000,
            true,
        ) ==> {
            &&& inventory_item_outcome(input) is Ok
            &&& inventory_item_outcome(input)->Ok_0.name == trimmed(input.name@)
            &&& inventory_item_outcome(input)->Ok_0.sku == kept_text(opt_chars(input.sku))
            &&& inventory_item_outcome(input)->Ok_0.notes == kept_text(opt_chars(input.notes))
            &&& inventory_item_outcome(input)->Ok_0.unit_id == input.unit_id
            &&& inventory_item_outcome(input)->Ok_0.default_purchase_price_fils
                == input.default_purchase_price_fils
            &&& inventory_item_outcome(input)->Ok_0.default_selling_price_fils
                == input.default_selling_price_fils
            &&& inventory_item_outcome(input)->Ok_0.minimum_stock_quantity
                == input.minimum_stock_quantity
        },
        trimmed(input.name@).len() > 150 ==> inventory_item_outcome(input) == Err::<
            InventoryItemView,
            InventoryValidationError,
        >(InventoryValidationError::TextTooLong(InventoryTextField::ItemName)),
        1 <= trimmed(input.name@).len() && fits_field(input.name@, 150, false) && (input.sku matches Some(
            sku,
        ) && trimmed(sku@).len() > 64) ==> inventory_item_outcome(input) == Err::<
            InventoryItemView,
            InventoryValidationError,
        >(InventoryValidationError::TextTooLong(InventoryTextField::Sku)),
        1 <= trimmed(input.name@).len() && fits_field(input.name@, 150, false)
            && acceptable_optional(input.sku, 64, false) && (input.notes matches Some(notes)
            && trimmed(notes@).len() > 2000) ==> inventory_item_outcome(input) == Err::<
            InventoryItemView,
            InventoryValidationError,
        >(InventoryValidationError::TextTooLong(InventoryTextField::Notes)),
{
}

/// A unit name holds up to 40 characters once trimmed: with a valid scale, a
/// unit whose trimmed name has 1 to 40 characters and no control character
/// is accepted with that trimmed name and scale, and a longer one is refused
/// as too long.
pub proof fn unit_names_hold_up_to_40_characters(input: NewInventoryUnitInput)
    requires
        valid_quantity_scale(input.quantity_scale as int),
    ensures
        1 <= trimmed(input.name@).len() && fits_field(input.name@, 40, false) ==> inventory_unit_outcome(
            input,
        ) == Ok::<InventoryUnitView, InventoryValidationError>(
            InventoryUnitView { name: trimmed(input.name@), quantity_scale: input.quantity_scale },
        ),
        trimmed(input.name@).len() > 40 ==> inventory_unit_outcome(input) == Err::<
            InventoryUnitView,
            InventoryValidationError,
        >(InventoryValidationError::TextTooLong(InventoryTextField::UnitName)),
{
}

} // verus!

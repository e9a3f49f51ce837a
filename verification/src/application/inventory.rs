//! Managing the inventory: searching items, creating and updating them, and
//! adjusting their stock.

use vstd::prelude::*;

use crate::application::DatabaseError;

use crate::text::{has_forbidden_control, is_control, kept_text, lemma_trimmed_unchanged, opt_chars};
use crate::domain::inventory::{
    acceptable_optional, inventory_item_outcome, movement_outcome, stock_movement_outcome, InventoryItem, InventoryItemView,
    InventoryValidationError, NewInventoryItemInput, NewStockMovementInput, StockMovement,
    StockMovementType, StockMovementView,
};

verus! {

pub const DEFAULT_INVENTORY_LIMIT: u32 = 50;

pub const MAX_INVENTORY_LIMIT: u32 = 100;

pub const MOVEMENT_LIMIT: i64 = 100;

#[derive(Debug, Clone, PartialEq, Eq)]
pub struct SearchInventoryItemsInput {
    pub query: String,
    pub limit: Option<u32>,
}

#[derive(Debug, Clone, Copy, PartialEq, Eq)]
pub struct LoadInventoryItemDetailsInput {
    pub inventory_item_id: i64,
}

#[derive(Debug, Clone, PartialEq, Eq)]
pub struct CreateInventoryItemInput {
    pub name: String,
    pub sku: Option<String>,
    pub unit_id: i64,
    pub default_purchase_price_fils: Option<i64>,
    pub default_selling_price_fils: i64,
    pub minimum_stock_quantity: i64,
    pub notes: Option<String>,
    pub opening_quantity: i64,
    pub created_at: i64,
}

#[derive(Debug, Clone, PartialEq, Eq)]
pub struct UpdateInventoryItemInput {
    pub inventory_item_id: i64,
    pub name: String,
    pub sku: Option<String>,
    pub default_purchase_price_fils: Option<i64>,
    pub default_selling_price_fils: i64,
    pub minimum_stock_quantity: i64,
    pub notes: Option<String>,
    pub updated_at: i64,
}

#[derive(Debug, Clone, PartialEq, Eq)]
pub struct AdjustInventoryStockInput {
    pub inventory_item_id: i64,
    pub quantity_delta: i64,
    pub notes: Option<String>,
    pub created_at: i64,
}

#[derive(Debug, Clone, PartialEq, Eq)]
pub struct InventoryItemSummary {
    pub id: i64,
    pub name: String,
    pub sku: Option<String>,
    pub unit_id: i64,
    pub unit_name: String,
    pub quantity_scale: i64,
    pub default_purchase_price_fils: Option<i64>,
    pub default_selling_price_fils: i64,
    pub minimum_stock_quantity: i64,
    pub notes: Option<String>,
    pub current_quantity: i64,
    pub low_stock: bool,
}

#[derive(Debug, Clone, PartialEq, Eq)]
pub struct InventoryItemDetails {
    pub id: i64,
    pub name: String,
    pub sku: Option<String>,
    pub unit_id: i64,
    pub unit_name: String,
    pub quantity_scale: i64,
    pub default_purchase_price_fils: Option<i64>,
    pub default_selling_price_fils: i64,
    pub minimum_stock_quantity: i64,
    pub notes: Option<String>,
    pub current_quantity: i64,
    pub low_stock: bool,
    pub movements: Vec<StockMovementEntry>,
}

#[derive(Debug, Clone, PartialEq, Eq)]
pub struct InventoryUnitSummary {
    pub id: i64,
    pub name: String,
    pub quantity_scale: i64,
}

#[derive(Debug, Clone, PartialEq, Eq)]
pub struct StockMovementEntry {
    pub id: i64,
    pub movement_type: StockMovementType,
    pub quantity_delta: i64,
    pub notes: Option<String>,
    pub service_visit_part_id: Option<i64>,
    pub created_at: i64,
}

#[derive(Debug)]
pub enum InventoryApplicationError {
    Validation(InventoryValidationError),
    InventoryItemNotFound,
    InventoryUnitNotFound,
    InventorySkuAlreadyExists,
    Database(DatabaseError),
}

/// How a refused write of an item is reported: a duplicate in a unique
/// column is an existing SKU, any other failure stays as it came.
pub fn inventory_write_failure(error: DatabaseError) -> (r: InventoryApplicationError)
    ensures
        error.is_unique_violation_spec() ==> r is InventorySkuAlreadyExists,
        !error.is_unique_violation_spec() ==> r == InventoryApplicationError::Database(error),
{
    if error.is_unique_violation() {
        InventoryApplicationError::InventorySkuAlreadyExists
    } else {
        InventoryApplicationError::Database(error)
    }
}

/// An item is low on stock when it has no more than its minimum.
pub open spec fn is_low_stock(current_quantity: i64, minimum_stock_quantity: i64) -> bool {
    current_quantity <= minimum_stock_quantity
}

/// The item a creation request describes, before its stock is known.
pub open spec fn item_input_of_create(input: CreateInventoryItemInput) -> NewInventoryItemInput {
    NewInventoryItemInput {
        name: input.name,
        sku: input.sku,
        unit_id: input.unit_id,
        default_purchase_price_fils: input.default_purchase_price_fils,
        default_selling_price_fils: input.default_selling_price_fils,
        minimum_stock_quantity: input.minimum_stock_quantity,
        notes: input.notes,
    }
}

/// The item an update request describes, in the unit the item already has.
pub open spec fn item_input_of_update(input: UpdateInventoryItemInput, unit_id: i64) -> NewInventoryItemInput {
    NewInventoryItemInput {
        name: input.name,
        sku: input.sku,
        unit_id,
        default_purchase_price_fils: input.default_purchase_price_fils,
        default_selling_price_fils: input.default_selling_price_fils,
        minimum_stock_quantity: input.minimum_stock_quantity,
        notes: input.notes,
    }
}

/// A stock adjustment adds stock when the delta is positive and removes it
/// otherwise.
pub open spec fn adjustment_type(quantity_delta: i64) -> StockMovementType {
    if quantity_delta > 0 {
        StockMovementType::AdjustmentIn
    } else {
        StockMovementType::AdjustmentOut
    }
}

pub open spec fn validation_result<T>(r: Result<T, InventoryApplicationError>, expected: Result<
    InventoryItemView,
    InventoryValidationError,
>, view: spec_fn(T) -> InventoryItemView) -> bool {
    match expected {
        Ok(v) => r matches Ok(x) && view(x) == v,
        Err(e) => r matches Err(InventoryApplicationError::Validation(f)) && f == e,
    }
}

impl InventoryItemSummary {
    /// An item's summary, with its low-stock flag worked out from its
    /// quantities.
    pub fn from_stock(
        id: i64,
        name: String,
        sku: Option<String>,
        unit_id: i64,
        unit_name: String,
        quantity_scale: i64,
        default_purchase_price_fils: Option<i64>,
        default_selling_price_fils: i64,
        minimum_stock_quantity: i64,
        notes: Option<String>,
        current_quantity: i64,
    ) -> (r: Self)
        ensures
            r.low_stock == is_low_stock(current_quantity, minimum_stock_quantity),
            r.id == id && r.name == name && r.sku == sku && r.unit_id == unit_id && r.unit_name
                == unit_name && r.quantity_scale == quantity_scale,
            r.default_purchase_price_fils == default_purchase_price_fils
                && r.default_selling_price_fils == default_selling_price_fils
                && r.minimum_stock_quantity == minimum_stock_quantity && r.notes == notes
                && r.current_quantity == current_quantity,
    {
        let low_stock = current_quantity <= minimum_stock_quantity;
        InventoryItemSummary {
            id,
            name,
            sku,
            unit_id,
            unit_name,
            quantity_scale,
            default_purchase_price_fils,
            default_selling_price_fils,
            minimum_stock_quantity,
            notes,
            current_quantity,
            low_stock,
        }
    }
}

impl InventoryItemDetails {
    /// The details page of an item: its summary and its recent movements.
    pub fn from_summary(summary: InventoryItemSummary, movements: Vec<StockMovementEntry>) -> (r:
        Self)
        ensures
            r.id == summary.id && r.name == summary.name && r.sku == summary.sku && r.unit_id
                == summary.unit_id && r.unit_name == summary.unit_name,
            r.quantity_scale == summary.quantity_scale && r.default_purchase_price_fils
                == summary.default_purchase_price_fils && r.default_selling_price_fils
                == summary.default_selling_price_fils,
            r.minimum_stock_quantity == summary.minimum_stock_quantity && r.notes == summary.notes
                && r.current_quantity == summary.current_quantity && r.low_stock
                == summary.low_stock,
            r.movements == movements,
    {
        InventoryItemDetails {
            id: summary.id,
            name: summary.name,
            sku: summary.sku,
            unit_id: summary.unit_id,
            unit_name: summary.unit_name,
            quantity_scale: summary.quantity_scale,
            default_purchase_price_fils: summary.default_purchase_price_fils,
            default_selling_price_fils: summary.default_selling_price_fils,
            minimum_stock_quantity: summary.minimum_stock_quantity,
            notes: summary.notes,
            current_quantity: summary.current_quantity,
            low_stock: summary.low_stock,
            movements,
        }
    }
}

/// Checks a creation request before anything is written: the creation time
/// and the opening quantity, then that the unit exists, then the item.
pub fn prepare_item_creation(input: CreateInventoryItemInput, unit_exists: bool) -> (r: Result<
    InventoryItem,
    InventoryApplicationError,
>)
    ensures
        input.created_at < 0 ==> (r matches Err(InventoryApplicationError::Validation(e)) && e
            == InventoryValidationError::InvalidTimestamp),
        input.created_at >= 0 && input.opening_quantity < 0 ==> (r matches Err(
            InventoryApplicationError::Validation(e),
        ) && e == (InventoryValidationError::InvalidQuantityDelta {
            movement_type: StockMovementType::OpeningStock,
        })),
        input.created_at >= 0 && input.opening_quantity >= 0 && !unit_exists ==> r matches Err(
            InventoryApplicationError::InventoryUnitNotFound,
        ),
        input.created_at >= 0 && input.opening_quantity >= 0 && unit_exists ==> validation_result(
            r,
            inventory_item_outcome(item_input_of_create(input)),
            |item: InventoryItem| item@,
        ),
{
    if input.created_at < 0 {
        return Err(InventoryApplicationError::Validation(InventoryValidationError::InvalidTimestamp));
    }
    if input.opening_quantity < 0 {
        return Err(
            InventoryApplicationError::Validation(
                InventoryValidationError::InvalidQuantityDelta {
                    movement_type: StockMovementType::OpeningStock,
                },
            ),
        );
    }
    if !unit_exists {
        return Err(InventoryApplicationError::InventoryUnitNotFound);
    }
    let item_input = NewInventoryItemInput {
        name: input.name,
        sku: input.sku,
        unit_id: input.unit_id,
        default_purchase_price_fils: input.default_purchase_price_fils,
        default_selling_price_fils: input.default_selling_price_fils,
        minimum_stock_quantity: input.minimum_stock_quantity,
        notes: input.notes,
    };
    assert(item_input == item_input_of_create(input));
    match InventoryItem::new(item_input) {
        Ok(item) => Ok(item),
        Err(e) => Err(InventoryApplicationError::Validation(e)),
    }
}

/// The note recorded with an opening stock movement.
pub open spec fn opening_stock_note() -> Seq<char> {
    "Opening stock"@
}

/// The opening stock of a newly created item, when it has any.
pub fn opening_stock_movement(
    inventory_item_id: i64,
    opening_quantity: i64,
    created_at: i64,
) -> (r: Result<Option<StockMovement>, InventoryApplicationError>)
    ensures
        opening_quantity <= 0 ==> r matches Ok(None),
        opening_quantity > 0 ==> {
            let expected = movement_outcome(
                inventory_item_id,
                StockMovementType::OpeningStock,
                opening_quantity,
                Some(opening_stock_note()),
                created_at,
            );
            match expected {
                Ok(v) => r matches Ok(Some(m)) && m@ == v,
                Err(e) => r matches Err(InventoryApplicationError::Validation(f)) && f == e,
            }
        },
{
    if opening_quantity <= 0 {
        return Ok(None);
    }
    let notes = "Opening stock".to_string();
    assert(notes@ == opening_stock_note());
    match StockMovement::new(
        NewStockMovementInput {
            inventory_item_id,
            movement_type: StockMovementType::OpeningStock,
            quantity_delta: opening_quantity,
            notes: Some(notes),
            created_at,
        },
    ) {
        Ok(movement) => Ok(Some(movement)),
        Err(e) => Err(InventoryApplicationError::Validation(e)),
    }
}

/// Checks an update against the item as stored: the time first, then that
/// the item exists; the unit stays the item's own.
pub fn prepare_item_update(input: UpdateInventoryItemInput, existing_unit_id: Option<i64>) -> (r:
    Result<InventoryItem, InventoryApplicationError>)
    ensures
        input.updated_at < 0 ==> (r matches Err(InventoryApplicationError::Validation(e)) && e
            == InventoryValidationError::InvalidTimestamp),
        input.updated_at >= 0 && existing_unit_id.is_none() ==> r matches Err(
            InventoryApplicationError::InventoryItemNotFound,
        ),
        input.updated_at >= 0 && existing_unit_id.is_some() ==> validation_result(
            r,
            inventory_item_outcome(item_input_of_update(input, existing_unit_id.unwrap())),
            |item: InventoryItem| item@,
        ),
{
    if input.updated_at < 0 {
        return Err(InventoryApplicationError::Validation(InventoryValidationError::InvalidTimestamp));
    }
    let unit_id = match existing_unit_id {
        Some(unit_id) => unit_id,
        None => {
            return Err(InventoryApplicationError::InventoryItemNotFound);
        },
    };
    let item_input = NewInventoryItemInput {
        name: input.name,
        sku: input.sku,
        unit_id,
        default_purchase_price_fils: input.default_purchase_price_fils,
        default_selling_price_fils: input.default_selling_price_fils,
        minimum_stock_quantity: input.minimum_stock_quantity,
        notes: input.notes,
    };
    assert(item_input == item_input_of_update(input, unit_id));
    match InventoryItem::new(item_input) {
        Ok(item) => Ok(item),
        Err(e) => Err(InventoryApplicationError::Validation(e)),
    }
}

/// The movement a stock adjustment records, once the item is known to exist.
pub fn prepare_stock_adjustment(input: AdjustInventoryStockInput, item_exists: bool) -> (r: Result<
    StockMovement,
    InventoryApplicationError,
>)
    ensures
        !item_exists ==> r matches Err(InventoryApplicationError::InventoryItemNotFound),
        item_exists ==> match stock_movement_outcome(
            NewStockMovementInput {
                inventory_item_id: input.inventory_item_id,
                movement_type: adjustment_type(input.quantity_delta),
                quantity_delta: input.quantity_delta,
                notes: input.notes,
                created_at: input.created_at,
            },
        ) {
            Ok(v) => r matches Ok(m) && m@ == v,
            Err(e) => r matches Err(InventoryApplicationError::Validation(f)) && f == e,
        },
{
    if !item_exists {
        return Err(InventoryApplicationError::InventoryItemNotFound);
    }
    let movement_type = if input.quantity_delta > 0 {
        StockMovementType::AdjustmentIn
    } else {
        StockMovementType::AdjustmentOut
    };
    match StockMovement::new(
        NewStockMovementInput {
            inventory_item_id: input.inventory_item_id,
            movement_type,
            quantity_delta: input.quantity_delta,
            notes: input.notes,
            created_at: input.created_at,
        },
    ) {
        Ok(movement) => Ok(movement),
        Err(e) => Err(InventoryApplicationError::Validation(e)),
    }
}


/// What a stock adjustment of an existing item records, as
/// `prepare_stock_adjustment` states it.
pub open spec fn adjustment_record(input: AdjustInventoryStockInput) -> Result<
    StockMovementView,
    InventoryValidationError,
> {
    stock_movement_outcome(
        NewStockMovementInput {
            inventory_item_id: input.inventory_item_id,
            movement_type: adjustment_type(input.quantity_delta),
            quantity_delta: input.quantity_delta,
            notes: input.notes,
            created_at: input.created_at,
        },
    )
}

/// For an existing item, with acceptable notes and time, every positive
/// delta up to the stored maximum is recorded as an adjustment in of exactly
/// that delta, every negative one down to minus the maximum as an adjustment
/// out of exactly that delta, and a zero or out-of-range delta is refused.
pub proof fn positive_adjustments_add_stock_and_negative_ones_remove_it(
    input: AdjustInventoryStockInput,
)
    requires
        input.inventory_item_id > 0,
        input.created_at >= 0,
        acceptable_optional(input.notes, 2000, true),
    ensures
        1 <= input.quantity_delta <= 1_000_000_000 ==> {
            &&& adjustment_record(input) is Ok
            &&& adjustment_record(input)->Ok_0.movement_type == StockMovementType::AdjustmentIn
            &&& adjustment_record(input)->Ok_0.quantity_delta == input.quantity_delta
            &&& adjustment_record(input)->Ok_0.notes == kept_text(opt_chars(input.notes))
            &&& adjustment_record(input)->Ok_0.inventory_item_id == input.inventory_item_id
            &&& adjustment_record(input)->Ok_0.created_at == input.created_at
        },
        -1_000_000_000 <= input.quantity_delta <= -1 ==> {
            &&& adjustment_record(input) is Ok
            &&& adjustment_record(input)->Ok_0.movement_type == StockMovementType::AdjustmentOut
            &&& adjustment_record(input)->Ok_0.quantity_delta == input.quantity_delta
            &&& adjustment_record(input)->Ok_0.notes == kept_text(opt_chars(input.notes))
            &&& adjustment_record(input)->Ok_0.inventory_item_id == input.inventory_item_id
            &&& adjustment_record(input)->Ok_0.created_at == input.created_at
        },
        input.quantity_delta == 0 || input.quantity_delta > 1_000_000_000
            || input.quantity_delta < -1_000_000_000 ==> adjustment_record(
            input,
        ) matches Err(InventoryValidationError::InvalidQuantityDelta { .. }),
{
}

/// A new item with a positive opening quantity up to the stored maximum
/// gets one opening-stock movement of exactly that quantity, noted as the
/// opening stock; one with no opening quantity gets none.
pub proof fn opening_stock_records_the_opening_quantity(
    inventory_item_id: i64,
    opening_quantity: i64,
    created_at: i64,
)
    requires
        inventory_item_id > 0,
        created_at >= 0,
        1 <= opening_quantity <= 1_000_000_000,
    ensures
        movement_outcome(
            inventory_item_id,
            StockMovementType::OpeningStock,
            opening_quantity,
            Some(opening_stock_note()),
            created_at,
        ) == Ok::<StockMovementView, InventoryValidationError>(
            StockMovementView {
                inventory_item_id,
                movement_type: StockMovementType::OpeningStock,
                quantity_delta: opening_quantity,
                notes: Some("Opening stock"@),
                created_at,
            },
        ),
{
    reveal_strlit("Opening stock");
    let n = "Opening stock"@;
    assert(n.len() == 13);
    lemma_trimmed_unchanged(n);
    assert(!has_forbidden_control(n, true)) by {
        assert forall|i: int| 0 <= i < n.len() implies !is_control(#[trigger] n[i]) by {}
    }
}
} // verus!

use moto_workshop::domain::inventory::{
    InventoryItem, InventoryTextField, InventoryUnit, InventoryValidationError,
    NewInventoryItemInput, NewInventoryUnitInput, NewStockMovementInput, QuantityScale,
    StockMovement, StockMovementType,
};

fn item_input(name: &str) -> NewInventoryItemInput {
    NewInventoryItemInput {
        name: name.to_string(),
        sku: Some("  OIL-10W40 ".to_string()),
        unit_id: 3,
        default_purchase_price_fils: Some(2_500),
        default_selling_price_fils: 4_000,
        minimum_stock_quantity: 5,
        notes: Some("   ".to_string()),
    }
}

fn movement_input(movement_type: StockMovementType, quantity_delta: i64) -> NewStockMovementInput {
    NewStockMovementInput {
        inventory_item_id: 7,
        movement_type,
        quantity_delta,
        notes: Some(" restock \n".to_string()),
        created_at: 1_700_000_000_000,
    }
}

#[test]
fn quantity_scale_accepts_powers_of_ten_up_to_thousand() {
    for value in [1, 10, 100, 1_000] {
        assert_eq!(QuantityScale::new(value).unwrap().as_i64(), value);
    }
    for value in [0, 2, 1_001, -10, 10_000] {
        assert_eq!(QuantityScale::new(value), Err(InventoryValidationError::InvalidQuantityScale));
    }
}

#[test]
fn inventory_unit_trims_its_name() {
    let unit = InventoryUnit::new(NewInventoryUnitInput {
        name: "  Litre ".to_string(),
        quantity_scale: 1_000,
    })
    .unwrap();
    assert_eq!(unit.name(), "Litre");
    assert_eq!(unit.quantity_scale().as_i64(), 1_000);
}

#[test]
fn inventory_unit_checks_name_before_scale() {
    let error = InventoryUnit::new(NewInventoryUnitInput { name: " ".to_string(), quantity_scale: 3 })
        .unwrap_err();
    assert_eq!(error, InventoryValidationError::BlankUnitName);
    let error = InventoryUnit::new(NewInventoryUnitInput { name: "Piece".to_string(), quantity_scale: 3 })
        .unwrap_err();
    assert_eq!(error, InventoryValidationError::InvalidQuantityScale);
}

#[test]
fn inventory_unit_name_limit_is_forty_characters() {
    let ok = InventoryUnit::new(NewInventoryUnitInput { name: "a".repeat(40), quantity_scale: 1 });
    assert!(ok.is_ok());
    let error = InventoryUnit::new(NewInventoryUnitInput { name: "a".repeat(41), quantity_scale: 1 })
        .unwrap_err();
    assert_eq!(error, InventoryValidationError::TextTooLong(InventoryTextField::UnitName));
}

#[test]
fn inventory_unit_name_rejects_tab() {
    let error = InventoryUnit::new(NewInventoryUnitInput { name: "Box\tBig".to_string(), quantity_scale: 1 })
        .unwrap_err();
    assert_eq!(
        error,
        InventoryValidationError::TextContainsControlCharacter(InventoryTextField::UnitName)
    );
}

#[test]
fn inventory_item_normalizes_text_fields() {
    let item = InventoryItem::new(item_input("  Engine oil ")).unwrap();
    assert_eq!(item.name(), "Engine oil");
    assert_eq!(item.sku(), Some("OIL-10W40"));
    assert_eq!(item.notes(), None);
    assert_eq!(item.unit_id(), 3);
    assert_eq!(item.default_purchase_price_fils(), Some(2_500));
    assert_eq!(item.default_selling_price_fils(), 4_000);
    assert_eq!(item.minimum_stock_quantity(), 5);
}

#[test]
fn inventory_item_rejects_each_invalid_amount() {
    let mut input = item_input("Oil");
    input.unit_id = 0;
    assert_eq!(InventoryItem::new(input).unwrap_err(), InventoryValidationError::InvalidUnitId);

    let mut input = item_input("Oil");
    input.default_purchase_price_fils = Some(-1);
    assert_eq!(InventoryItem::new(input).unwrap_err(), InventoryValidationError::InvalidPurchasePrice);

    let mut input = item_input("Oil");
    input.default_selling_price_fils = 1_000_000_001;
    assert_eq!(InventoryItem::new(input).unwrap_err(), InventoryValidationError::InvalidSellingPrice);

    let mut input = item_input("Oil");
    input.minimum_stock_quantity = -5;
    assert_eq!(InventoryItem::new(input).unwrap_err(), InventoryValidationError::InvalidMinimumStock);
}

#[test]
fn inventory_item_amount_checks_come_before_the_name() {
    let mut input = item_input("   ");
    input.unit_id = -1;
    assert_eq!(InventoryItem::new(input).unwrap_err(), InventoryValidationError::InvalidUnitId);
    assert_eq!(
        InventoryItem::new(item_input("   ")).unwrap_err(),
        InventoryValidationError::BlankItemName
    );
}

#[test]
fn inventory_item_notes_may_hold_line_breaks_but_sku_may_not() {
    let mut input = item_input("Chain");
    input.notes = Some("line one\nline two".to_string());
    let item = InventoryItem::new(input).unwrap();
    assert_eq!(item.notes(), Some("line one\nline two"));

    let mut input = item_input("Chain");
    input.sku = Some("A\nB".to_string());
    assert_eq!(
        InventoryItem::new(input).unwrap_err(),
        InventoryValidationError::TextContainsControlCharacter(InventoryTextField::Sku)
    );
}

#[test]
fn inventory_item_sku_limit_is_sixty_four_characters() {
    let mut input = item_input("Chain");
    input.sku = Some("S".repeat(65));
    assert_eq!(
        InventoryItem::new(input).unwrap_err(),
        InventoryValidationError::TextTooLong(InventoryTextField::Sku)
    );
}

#[test]
fn stock_movement_accepts_inbound_and_outbound_deltas() {
    let movement = StockMovement::new(movement_input(StockMovementType::Purchase, 12)).unwrap();
    assert_eq!(movement.inventory_item_id(), 7);
    assert_eq!(movement.movement_type(), StockMovementType::Purchase);
    assert_eq!(movement.quantity_delta(), 12);
    assert_eq!(movement.notes(), Some("restock"));
    assert_eq!(movement.created_at(), 1_700_000_000_000);

    let movement = StockMovement::new(movement_input(StockMovementType::AdjustmentOut, -3)).unwrap();
    assert_eq!(movement.quantity_delta(), -3);
}

#[test]
fn stock_movement_rejects_delta_with_wrong_sign() {
    for (movement_type, delta) in [
        (StockMovementType::OpeningStock, 0),
        (StockMovementType::Purchase, -1),
        (StockMovementType::AdjustmentIn, 1_000_000_001),
        (StockMovementType::AdjustmentOut, 1),
        (StockMovementType::AdjustmentOut, -1_000_000_001),
    ] {
        assert_eq!(
            StockMovement::new(movement_input(movement_type, delta)).unwrap_err(),
            InventoryValidationError::InvalidQuantityDelta { movement_type }
        );
    }
}

#[test]
fn stock_movement_checks_item_then_timestamp() {
    let mut input = movement_input(StockMovementType::Purchase, 0);
    input.inventory_item_id = 0;
    input.created_at = -1;
    assert_eq!(StockMovement::new(input).unwrap_err(), InventoryValidationError::InvalidInventoryItemId);
    let mut input = movement_input(StockMovementType::Purchase, 0);
    input.created_at = -1;
    assert_eq!(StockMovement::new(input).unwrap_err(), InventoryValidationError::InvalidTimestamp);
}

#[test]
fn stock_movement_notes_reject_escape_character() {
    let mut input = movement_input(StockMovementType::Purchase, 1);
    input.notes = Some("bad \u{1b} note".to_string());
    assert_eq!(
        StockMovement::new(input).unwrap_err(),
        InventoryValidationError::TextContainsControlCharacter(InventoryTextField::MovementNotes)
    );
}

#[test]
fn validating_an_item_again_keeps_it() {
    let first = InventoryItem::new(item_input("  Engine oil ")).unwrap();
    let again = InventoryItem::new(NewInventoryItemInput {
        name: first.name().to_string(),
        sku: first.sku().map(|s| s.to_string()),
        unit_id: first.unit_id(),
        default_purchase_price_fils: first.default_purchase_price_fils(),
        default_selling_price_fils: first.default_selling_price_fils(),
        minimum_stock_quantity: first.minimum_stock_quantity(),
        notes: first.notes().map(|n| n.to_string()),
    })
    .unwrap();
    assert_eq!(first, again);
}

use moto_workshop::domain::service_visit_part::{
    calculate_line_total_fils, NewServiceVisitPartInput, ServiceVisitPart, ServiceVisitPartStatus,
    ServiceVisitPartTextField, ServiceVisitPartValidationError,
};

fn part_input() -> NewServiceVisitPartInput {
    NewServiceVisitPartInput {
        service_visit_id: 11,
        inventory_item_id: 5,
        item_name: " Engine oil ".to_string(),
        unit_name: "Litre".to_string(),
        quantity: 1_500,
        quantity_scale: 1_000,
        unit_price_fils: 4_000,
        created_at: 10_000,
    }
}

#[test]
fn line_total_of_fractional_quantity() {
    assert_eq!(calculate_line_total_fils(1_500, 1_000, 4_000), Ok(6_000));
    assert_eq!(calculate_line_total_fils(3, 1, 250), Ok(750));
}

#[test]
fn line_total_rounds_half_up() {
    assert_eq!(calculate_line_total_fils(5, 10, 3), Ok(2));
    assert_eq!(calculate_line_total_fils(4, 10, 3), Ok(1));
    assert_eq!(calculate_line_total_fils(1, 1_000, 499), Ok(0));
    assert_eq!(calculate_line_total_fils(1, 1_000, 500), Ok(1));
}

#[test]
fn line_total_at_the_largest_inputs() {
    assert_eq!(
        calculate_line_total_fils(1_000_000_000, 1, 1_000_000_000),
        Ok(1_000_000_000_000_000_000)
    );
}

#[test]
fn line_total_rejects_each_invalid_input() {
    assert_eq!(calculate_line_total_fils(0, 1, 1), Err(ServiceVisitPartValidationError::InvalidQuantity));
    assert_eq!(
        calculate_line_total_fils(1_000_000_001, 1, 1),
        Err(ServiceVisitPartValidationError::InvalidQuantity)
    );
    assert_eq!(calculate_line_total_fils(1, 3, 1), Err(ServiceVisitPartValidationError::InvalidQuantityScale));
    assert_eq!(calculate_line_total_fils(1, 1, -1), Err(ServiceVisitPartValidationError::InvalidUnitPrice));
    assert_eq!(
        calculate_line_total_fils(1, 1, 1_000_000_001),
        Err(ServiceVisitPartValidationError::InvalidUnitPrice)
    );
}

#[test]
fn new_part_is_active_and_priced() {
    let part = ServiceVisitPart::new(part_input()).unwrap();
    assert_eq!(part.service_visit_id(), 11);
    assert_eq!(part.inventory_item_id(), 5);
    assert_eq!(part.item_name(), "Engine oil");
    assert_eq!(part.unit_name(), "Litre");
    assert_eq!(part.quantity(), 1_500);
    assert_eq!(part.quantity_scale(), 1_000);
    assert_eq!(part.unit_price_fils(), 4_000);
    assert_eq!(part.line_total_fils(), 6_000);
    assert_eq!(part.status(), ServiceVisitPartStatus::Active);
    assert_eq!(part.voided_at(), None);
    assert_eq!(part.void_reason(), None);
    assert_eq!(part.created_at(), 10_000);
}

#[test]
fn new_part_rejects_each_invalid_field() {
    let mut input = part_input();
    input.service_visit_id = 0;
    assert_eq!(ServiceVisitPart::new(input).unwrap_err(), ServiceVisitPartValidationError::InvalidServiceVisitId);
    let mut input = part_input();
    input.inventory_item_id = 0;
    assert_eq!(ServiceVisitPart::new(input).unwrap_err(), ServiceVisitPartValidationError::InvalidInventoryItemId);
    let mut input = part_input();
    input.created_at = -5;
    assert_eq!(ServiceVisitPart::new(input).unwrap_err(), ServiceVisitPartValidationError::InvalidTimestamp);
    let mut input = part_input();
    input.item_name = " ".to_string();
    assert_eq!(ServiceVisitPart::new(input).unwrap_err(), ServiceVisitPartValidationError::BlankItemName);
    let mut input = part_input();
    input.unit_name = String::new();
    assert_eq!(ServiceVisitPart::new(input).unwrap_err(), ServiceVisitPartValidationError::BlankUnitName);
    let mut input = part_input();
    input.unit_name = "u".repeat(41);
    assert_eq!(
        ServiceVisitPart::new(input).unwrap_err(),
        ServiceVisitPartValidationError::TextTooLong(ServiceVisitPartTextField::UnitName)
    );
    let mut input = part_input();
    input.item_name = "Oil\nfilter".to_string();
    assert_eq!(
        ServiceVisitPart::new(input).unwrap_err(),
        ServiceVisitPartValidationError::TextContainsControlCharacter(ServiceVisitPartTextField::ItemName)
    );
    let mut input = part_input();
    input.quantity_scale = 7;
    assert_eq!(ServiceVisitPart::new(input).unwrap_err(), ServiceVisitPartValidationError::InvalidQuantityScale);
}

#[test]
fn voiding_keeps_price_and_records_reason() {
    let mut part = ServiceVisitPart::new(part_input()).unwrap();
    part.void(12_000, Some("  Wrong grade ".to_string())).unwrap();
    assert_eq!(part.status(), ServiceVisitPartStatus::Voided);
    assert_eq!(part.voided_at(), Some(12_000));
    assert_eq!(part.void_reason(), Some("Wrong grade"));
    assert_eq!(part.line_total_fils(), 6_000);
    assert_eq!(part.quantity(), 1_500);
}

#[test]
fn voiding_twice_is_refused() {
    let mut part = ServiceVisitPart::new(part_input()).unwrap();
    part.void(12_000, None).unwrap();
    assert_eq!(part.void(13_000, None), Err(ServiceVisitPartValidationError::PartAlreadyVoided));
    assert_eq!(part.voided_at(), Some(12_000));
}

#[test]
fn voiding_before_creation_is_refused() {
    let mut part = ServiceVisitPart::new(part_input()).unwrap();
    assert_eq!(part.void(9_999, None), Err(ServiceVisitPartValidationError::InvalidTimestamp));
    assert_eq!(part.status(), ServiceVisitPartStatus::Active);
    assert_eq!(
        part.void(10_000, Some("r".repeat(1_001))),
        Err(ServiceVisitPartValidationError::TextTooLong(ServiceVisitPartTextField::VoidReason))
    );
    assert_eq!(part.status(), ServiceVisitPartStatus::Active);
}

#[test]
fn rebuilding_a_part_from_its_fields_keeps_it() {
    let first = ServiceVisitPart::new(part_input()).unwrap();
    let again = ServiceVisitPart::new(NewServiceVisitPartInput {
        service_visit_id: first.service_visit_id(),
        inventory_item_id: first.inventory_item_id(),
        item_name: first.item_name().to_string(),
        unit_name: first.unit_name().to_string(),
        quantity: first.quantity(),
        quantity_scale: first.quantity_scale(),
        unit_price_fils: first.unit_price_fils(),
        created_at: first.created_at(),
    })
    .unwrap();
    assert_eq!(first, again);
}

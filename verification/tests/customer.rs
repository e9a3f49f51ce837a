use moto_workshop::domain::customer::{CustomerValidationError, NewCustomer};

#[test]
fn new_customer_trims_name_and_normalizes_local_phone() {
    let customer = NewCustomer::new("  Ali Hassan  ".to_string(), " 0791234567 ".to_string(), None)
        .unwrap();
    assert_eq!(customer.name(), "Ali Hassan");
    assert_eq!(customer.phone(), "+962791234567");
    assert_eq!(customer.notes(), None);
}

#[test]
fn new_customer_normalizes_international_prefix() {
    let customer = NewCustomer::new(
        "Sara".to_string(),
        "00962791234567".to_string(),
        Some("  prefers calls  ".to_string()),
    )
    .unwrap();
    assert_eq!(customer.phone(), "+962791234567");
    assert_eq!(customer.notes(), Some("  prefers calls  "));
}

#[test]
fn new_customer_keeps_other_phone_forms() {
    let customer = NewCustomer::new("Omar".to_string(), "+962791234567".to_string(), None).unwrap();
    assert_eq!(customer.phone(), "+962791234567");
}

#[test]
fn new_customer_rejects_blank_name() {
    let error = NewCustomer::new("   ".to_string(), "0791234567".to_string(), None).unwrap_err();
    assert_eq!(error, CustomerValidationError::BlankName);
}

#[test]
fn new_customer_rejects_blank_phone() {
    let error = NewCustomer::new("Ali".to_string(), " \t ".to_string(), None).unwrap_err();
    assert_eq!(error, CustomerValidationError::BlankPhone);
}

#[test]
fn new_customer_single_zero_phone_becomes_prefix() {
    let customer = NewCustomer::new("Ali".to_string(), "0".to_string(), None).unwrap();
    assert_eq!(customer.phone(), "+962");
}

#[test]
fn registering_a_customer_again_keeps_it() {
    let first = NewCustomer::new(" Lina ".to_string(), " 00962795550001 ".to_string(), None).unwrap();
    let again = NewCustomer::new(first.name().to_string(), first.phone().to_string(), None).unwrap();
    assert_eq!(first, again);
    assert_eq!(again.phone(), "+962795550001");
}
